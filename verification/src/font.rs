//! Glyph-atlas data for the rendering collaborators: extension lookup
//! tables, glyph keys, and the cell-to-pixel rectangle arithmetic.

use std::collections::HashMap;
use vstd::prelude::*;

verus! {

/// A table of icon names and offset pairs into an extension atlas. The
/// offsets are tile-sized, not pixel-sized.
#[derive(Debug)]
pub struct LookupTable {
    pub data: HashMap<String, (u32, u32)>,
}

impl LookupTable {
    /// An empty table.
    pub fn new() -> (t: LookupTable)
        ensures
            t.data@ == Map::<String, (u32, u32)>::empty(),
    {
        LookupTable { data: HashMap::new() }
    }
}

/// Names a glyph: a character of the base atlas, or an icon of a named
/// extension atlas.
#[derive(Debug, Clone, PartialEq, Eq)]
pub enum FontKey {
    Char(char),
    Icon(String, String),
}

impl From<char> for FontKey {
    fn from(value: char) -> (k: FontKey) {
        FontKey::Char(value)
    }
}

impl vstd::std_specs::convert::FromSpecImpl<char> for FontKey {
    open spec fn obeys_from_spec() -> bool {
        true
    }

    open spec fn from_spec(value: char) -> FontKey {
        FontKey::Char(value)
    }
}

/// The pixel rectangle of a glyph cell: the tile offset scaled by the
/// glyph size. The caller keeps the products within the coordinate type.
pub fn offset_to_local(offset: (i32, i32), glyph_width: u32, glyph_height: u32) -> (r: (
    i32,
    i32,
    u32,
    u32,
))
    requires
        i32::MIN <= offset.0 * glyph_width <= i32::MAX,
        i32::MIN <= offset.1 * glyph_height <= i32::MAX,
    ensures
        r.0 == offset.0 * glyph_width,
        r.1 == offset.1 * glyph_height,
        r.2 == glyph_width,
        r.3 == glyph_height,
{
    let x = (offset.0 as i64) * (glyph_width as i64);
    let y = (offset.1 as i64) * (glyph_height as i64);
    (x as i32, y as i32, glyph_width, glyph_height)
}

/// The pixel rectangle of a glyph cell from an unsigned tile offset, or
/// `None` when a raw offset does not convert to the coordinate type or a
/// scaled coordinate does not fit it.
pub fn try_offset_to_local(offset: (u32, u32), glyph_width: u32, glyph_height: u32) -> (r: Option<
    (i32, i32, u32, u32),
>)
    ensures
        r is Some <==> offset.0 <= i32::MAX && offset.1 <= i32::MAX && offset.0 * glyph_width
            <= i32::MAX && offset.1 * glyph_height <= i32::MAX,
        r matches Some(rect) ==> rect.0 == offset.0 * glyph_width && rect.1 == offset.1
            * glyph_height && rect.2 == glyph_width && rect.3 == glyph_height,
{
    if offset.0 > i32::MAX as u32 || offset.1 > i32::MAX as u32 {
        return None;
    }
    proof {
        assert((offset.0 as int) * (glyph_width as int) <= (u32::MAX as int) * (u32::MAX as int)
            && (offset.1 as int) * (glyph_height as int) <= (u32::MAX as int) * (
        u32::MAX as int)) by (nonlinear_arith)
            requires
                offset.0 <= u32::MAX,
                offset.1 <= u32::MAX,
                glyph_width <= u32::MAX,
                glyph_height <= u32::MAX,
        ;
    }
    let x = (offset.0 as u64) * (glyph_width as u64);
    let y = (offset.1 as u64) * (glyph_height as u64);
    if x > i32::MAX as u64 || y > i32::MAX as u64 {
        return None;
    }
    Some((x as i32, y as i32, glyph_width, glyph_height))
}

} // verus!
