//! Plugins and their capability bridge: typed, optional access to the
//! callables a plugin's entry script declares, with all marshaling of
//! script-supplied values validated on this side of the boundary.

use vstd::prelude::*;
use vstd::string::*;

use crate::manifest::{FetchMetadataError, Metadata};
use crate::script::{
    FetchLuaError, call_unit, call_value, lua_clone_handle, table_get_function, table_get_i64,
    table_get_string, value_as_table,
};

verus! {

/// A single glyph-placement instruction produced by a plugin's
/// `draw_pass` capability.
#[derive(Debug, Clone, Copy, PartialEq, Eq, Structural)]
pub struct DrawCommand {
    pub x: i32,
    pub y: i32,
    pub glyph: char,
}

/// Error from invoking a plugin capability. The two kinds are distinct so
/// a caller can tell "the plugin crashed" from "the plugin returned
/// garbage".
#[derive(Debug)]
pub enum CapabilityError {
    /// The callable itself raised a runtime fault; carries the engine's
    /// diagnostic.
    Invocation(String),
    /// The callable returned a value that does not marshal into the
    /// expected shape; says which part is wrong.
    MalformedReturn(String),
}

/// Error from loading one plugin package: the manifest stage fails before
/// the script stage is ever attempted.
#[derive(Debug)]
pub enum LoadPluginError {
    FetchLuaError(FetchLuaError),
    FetchMetadataError(FetchMetadataError),
}

/// A plugin's optional capability set, independent of the scripting
/// backend behind it. `None` means the capability is not declared;
/// `Some` carries the outcome of invoking it.
pub trait PluginApi {
    type Err;

    fn init(&self) -> Option<Result<(), Self::Err>> {
        None
    }

    fn draw_pass(&self) -> Option<Result<DrawCommand, Self::Err>> {
        None
    }
}

/// The script-backed capability bridge: a handle to the shared engine and
/// the callables the entry script declared. The handle keeps the engine
/// alive for as long as the bridge lives.
pub struct LuaPluginApi {
    engine: mlua::Lua,
    init: Option<mlua::Function>,
    draw_pass: Option<mlua::Function>,
}

/// The coordinates are present and fit the host's 32-bit coordinate type,
/// and the glyph is exactly one character.
pub open spec fn spec_marshal_ok(x: Option<i64>, y: Option<i64>, glyph: Option<Seq<char>>) -> bool {
    &&& x matches Some(xv) && i32::MIN <= xv <= i32::MAX
    &&& y matches Some(yv) && i32::MIN <= yv <= i32::MAX
    &&& glyph matches Some(g) && g.len() == 1
}

/// Marshals the raw field readings of a `draw_pass` return table into a
/// `DrawCommand`: succeeds exactly when both coordinates are present and
/// representable as 32-bit integers and the glyph is exactly one
/// character; every other shape is a marshaling error, never a fault.
pub fn marshal_draw_command(x: Option<i64>, y: Option<i64>, glyph: Option<String>) -> (r: Result<
    DrawCommand,
    CapabilityError,
>)
    ensures
        r is Ok <==> spec_marshal_ok(x, y, glyph.deep_view()),
        r matches Ok(c) ==> Some(c.x as i64) == x && Some(c.y as i64) == y && (glyph matches Some(
            g,
        ) && c.glyph == g@[0]),
        r matches Err(e) ==> e is MalformedReturn,
{
    let xv = match x {
        Some(v) => v,
        None => {
            return Err(CapabilityError::MalformedReturn(String::from_str("missing field x")));
        },
    };
    if xv < i32::MIN as i64 || xv > i32::MAX as i64 {
        return Err(CapabilityError::MalformedReturn(String::from_str("field x out of range")));
    }
    let yv = match y {
        Some(v) => v,
        None => {
            return Err(CapabilityError::MalformedReturn(String::from_str("missing field y")));
        },
    };
    if yv < i32::MIN as i64 || yv > i32::MAX as i64 {
        return Err(CapabilityError::MalformedReturn(String::from_str("field y out of range")));
    }
    let g = match glyph {
        Some(g) => g,
        None => {
            return Err(CapabilityError::MalformedReturn(String::from_str("missing field glyph")));
        },
    };
    if g.as_str().unicode_len() != 1 {
        return Err(
            CapabilityError::MalformedReturn(
                String::from_str("field glyph must be one character"),
            ),
        );
    }
    let glyph_char = g.as_str().get_char(0);
    Ok(DrawCommand { x: xv as i32, y: yv as i32, glyph: glyph_char })
}

impl LuaPluginApi {
    /// Whether the script declared an `init` capability.
    pub closed spec fn spec_has_init(&self) -> bool {
        self.init is Some
    }

    /// Whether the script declared a `draw_pass` capability.
    pub closed spec fn spec_has_draw_pass(&self) -> bool {
        self.draw_pass is Some
    }

    /// Builds a bridge from already looked-up callables: a capability is
    /// declared exactly when its callable is present. Takes its own
    /// handle to the engine so the callables stay valid for the bridge's
    /// lifetime.
    pub fn from_callables(
        lua: &mlua::Lua,
        init: Option<mlua::Function>,
        draw_pass: Option<mlua::Function>,
    ) -> (api: LuaPluginApi)
        ensures
            api.spec_has_init() == (init is Some),
            api.spec_has_draw_pass() == (draw_pass is Some),
    {
        LuaPluginApi { engine: lua_clone_handle(lua), init, draw_pass }
    }

    /// Binds the recognized capabilities out of an evaluated capability
    /// table: `init` and `draw_pass` are declared exactly when the
    /// table's entry of that name converts to a function; every other
    /// entry is ignored, and nothing is invoked.
    pub fn new(lua: &mlua::Lua, table: mlua::Table) -> (api: LuaPluginApi) {
        let init = table_get_function(&table, "init");
        let draw_pass = table_get_function(&table, "draw_pass");
        LuaPluginApi::from_callables(lua, init, draw_pass)
    }

    /// Whether the plugin declares an `init` capability.
    pub fn has_init(&self) -> (r: bool)
        ensures
            r == self.spec_has_init(),
    {
        self.init.is_some()
    }

    /// Whether the plugin declares a `draw_pass` capability.
    pub fn has_draw_pass(&self) -> (r: bool)
        ensures
            r == self.spec_has_draw_pass(),
    {
        self.draw_pass.is_some()
    }

    /// Invokes the `init` capability: `None` exactly when the script
    /// declared none; otherwise the callable's outcome, with a runtime
    /// fault surfaced as an invocation error.
    pub fn try_init(&self) -> (r: Option<Result<(), CapabilityError>>)
        ensures
            r is Some <==> self.spec_has_init(),
            r matches Some(Err(e)) ==> e is Invocation,
    {
        match &self.init {
            None => None,
            Some(f) => match call_unit(f) {
                Ok(u) => Some(Ok(u)),
                Err(msg) => Some(Err(CapabilityError::Invocation(msg))),
            },
        }
    }

    /// Invokes the `draw_pass` capability: `None` exactly when the script
    /// declared none. A runtime fault in the callable is an invocation
    /// error; a return value that is not a table, or whose fields do not
    /// marshal, is a marshaling error. The raw engine failure is never
    /// surfaced as a crash.
    pub fn try_draw_pass(&self) -> (r: Option<Result<DrawCommand, CapabilityError>>)
        ensures
            r is Some <==> self.spec_has_draw_pass(),
    {
        let f = match &self.draw_pass {
            None => {
                return None;
            },
            Some(f) => f,
        };
        let value = match call_value(f) {
            Ok(v) => v,
            Err(msg) => {
                return Some(Err(CapabilityError::Invocation(msg)));
            },
        };
        let table = match value_as_table(&value) {
            Some(t) => t,
            None => {
                return Some(
                    Err(
                        CapabilityError::MalformedReturn(
                            String::from_str("draw_pass must return a table"),
                        ),
                    ),
                );
            },
        };
        let x = table_get_i64(&table, "x");
        let y = table_get_i64(&table, "y");
        let glyph = table_get_string(&table, "glyph");
        Some(marshal_draw_command(x, y, glyph))
    }
}

impl PluginApi for LuaPluginApi {
    type Err = CapabilityError;

    fn init(&self) -> Option<Result<(), CapabilityError>> {
        self.try_init()
    }

    fn draw_pass(&self) -> Option<Result<DrawCommand, CapabilityError>> {
        self.try_draw_pass()
    }
}

/// The unit of composition: a plugin's metadata plus its bound capability
/// bridge. Immutable after construction.
pub struct Plugin {
    pub metadata: Metadata,
    api: LuaPluginApi,
}

impl Plugin {
    /// The plugin's metadata, as contracts outside this module see it.
    pub closed spec fn spec_metadata(&self) -> Metadata {
        self.metadata
    }

    /// Whether the plugin declares an `init` capability.
    pub closed spec fn spec_has_init(&self) -> bool {
        self.api.spec_has_init()
    }

    /// Whether the plugin declares a `draw_pass` capability.
    pub closed spec fn spec_has_draw_pass(&self) -> bool {
        self.api.spec_has_draw_pass()
    }

    /// Builds a plugin from parts already in memory: metadata plus an
    /// evaluated capability table bound against the given engine.
    pub fn new_from_parts(lua: &mlua::Lua, metadata: Metadata, functions: mlua::Table) -> (p:
        Plugin)
        ensures
            p.spec_metadata() == metadata,
    {
        Plugin { metadata, api: LuaPluginApi::new(lua, functions) }
    }

    /// The plugin's capability bridge.
    pub fn api(&self) -> (api: &LuaPluginApi)
        ensures
            api.spec_has_init() == self.spec_has_init(),
            api.spec_has_draw_pass() == self.spec_has_draw_pass(),
    {
        &self.api
    }

    /// Whether the plugin declares an `init` capability.
    pub fn has_init(&self) -> (r: bool)
        ensures
            r == self.spec_has_init(),
    {
        self.api.has_init()
    }

    /// Whether the plugin declares a `draw_pass` capability.
    pub fn has_draw_pass(&self) -> (r: bool)
        ensures
            r == self.spec_has_draw_pass(),
    {
        self.api.has_draw_pass()
    }

    /// Invokes the `init` capability, if declared. See
    /// [`LuaPluginApi::try_init`].
    pub fn try_init(&self) -> (r: Option<Result<(), CapabilityError>>)
        ensures
            r is Some <==> self.spec_has_init(),
            r matches Some(Err(e)) ==> e is Invocation,
    {
        self.api.try_init()
    }

    /// Invokes the `draw_pass` capability, if declared. See
    /// [`LuaPluginApi::try_draw_pass`].
    pub fn try_draw_pass(&self) -> (r: Option<Result<DrawCommand, CapabilityError>>)
        ensures
            r is Some <==> self.spec_has_draw_pass(),
    {
        self.api.try_draw_pass()
    }
}

} // verus!
