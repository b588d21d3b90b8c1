//! Colors and palettes used by the rendering collaborators of the host.

use vstd::prelude::*;

verus! {

/// An RGB color, one byte per channel.
#[derive(Debug, Default, Clone, Copy, PartialEq, Eq, Hash, Structural)]
pub struct Color {
    pub r: u8,
    pub g: u8,
    pub b: u8,
}

impl Color {
    pub fn new(r: u8, g: u8, b: u8) -> (c: Color)
        ensures
            c == (Color { r, g, b }),
    {
        Color { r, g, b }
    }

    /// Channel-wise sum. The caller keeps every channel within one byte.
    pub fn component_add(self, rhs: Color) -> (c: Color)
        requires
            self.r + rhs.r <= u8::MAX,
            self.g + rhs.g <= u8::MAX,
            self.b + rhs.b <= u8::MAX,
        ensures
            c.r == self.r + rhs.r,
            c.g == self.g + rhs.g,
            c.b == self.b + rhs.b,
    {
        Color { r: self.r + rhs.r, g: self.g + rhs.g, b: self.b + rhs.b }
    }

    /// Channel-wise difference. The caller keeps every channel non-negative.
    pub fn component_sub(self, rhs: Color) -> (c: Color)
        requires
            self.r >= rhs.r,
            self.g >= rhs.g,
            self.b >= rhs.b,
        ensures
            c.r == self.r - rhs.r,
            c.g == self.g - rhs.g,
            c.b == self.b - rhs.b,
    {
        Color { r: self.r - rhs.r, g: self.g - rhs.g, b: self.b - rhs.b }
    }
}

impl From<(u8, u8, u8)> for Color {
    fn from(t: (u8, u8, u8)) -> (c: Color) {
        Color { r: t.0, g: t.1, b: t.2 }
    }
}

impl vstd::std_specs::convert::FromSpecImpl<(u8, u8, u8)> for Color {
    open spec fn obeys_from_spec() -> bool {
        true
    }

    open spec fn from_spec(t: (u8, u8, u8)) -> Color {
        Color { r: t.0, g: t.1, b: t.2 }
    }
}

impl From<Color> for (u8, u8, u8) {
    fn from(c: Color) -> (t: (u8, u8, u8)) {
        (c.r, c.g, c.b)
    }
}

impl vstd::std_specs::convert::FromSpecImpl<Color> for (u8, u8, u8) {
    open spec fn obeys_from_spec() -> bool {
        true
    }

    open spec fn from_spec(c: Color) -> (u8, u8, u8) {
        (c.r, c.g, c.b)
    }
}

/// A foreground/background color pair with optional accent colors.
#[derive(Debug, Clone, Copy, PartialEq, Eq, Hash)]
pub struct Palette {
    pub fg: Color,
    pub fg_accent1: Option<Color>,
    pub fg_accent2: Option<Color>,
    pub bg: Color,
    pub bg_accent1: Option<Color>,
    pub bg_accent2: Option<Color>,
}

impl Palette {
    /// A palette with only the two mandatory colors set.
    pub fn simple(fg: Color, bg: Color) -> (p: Palette)
        ensures
            p.fg == fg,
            p.bg == bg,
            p.fg_accent1 is None,
            p.fg_accent2 is None,
            p.bg_accent1 is None,
            p.bg_accent2 is None,
    {
        Palette {
            fg,
            bg,
            fg_accent1: None,
            fg_accent2: None,
            bg_accent1: None,
            bg_accent2: None,
        }
    }
}

impl Default for Palette {
    /// White on black, no accents.
    fn default() -> (p: Palette)
        ensures
            p.fg == (Color { r: 255, g: 255, b: 255 }),
            p.bg == (Color { r: 0, g: 0, b: 0 }),
            p.fg_accent1 is None,
            p.fg_accent2 is None,
            p.bg_accent1 is None,
            p.bg_accent2 is None,
    {
        Palette {
            fg: Color { r: 255, g: 255, b: 255 },
            bg: Color { r: 0, g: 0, b: 0 },
            fg_accent1: None,
            fg_accent2: None,
            bg_accent1: None,
            bg_accent2: None,
        }
    }
}

} // verus!
