//! The scripting engine's surface: declarations of the engine types, the
//! trusted calls into them, and entry-script discovery.
//!
//! Evaluating an entry script executes arbitrary code supplied by the
//! plugin author with the full privilege of the embedding engine; the
//! loader performs no isolation. Callers accept that trust boundary.

use vstd::prelude::*;

use crate::manifest::{ascii_eq_ignore_case, eq_ignore_ascii_case_str};

verus! {

#[verifier::external_type_specification]
#[verifier::external_body]
pub struct ExLua(mlua::Lua);

#[verifier::external_type_specification]
#[verifier::external_body]
pub struct ExLuaTable(mlua::Table);

#[verifier::external_type_specification]
#[verifier::external_body]
pub struct ExLuaFunction(mlua::Function);

#[verifier::external_type_specification]
#[verifier::external_body]
pub struct ExLuaValue(mlua::Value);

/// Error from locating, reading, or evaluating a plugin's entry script.
#[derive(Debug)]
pub enum FetchLuaError {
    /// The script failed to compile or run, or its top-level expression
    /// did not yield a table; carries the engine's diagnostic verbatim.
    ScriptEvaluationError(String),
    /// The entry script cannot be read; carries the I/O diagnostic.
    EntryScriptUnreadable(String),
    /// The plugin directory holds no entry script.
    EntryScriptNotFound,
}

/// Relies on `mlua::Lua::new`: a fresh engine with the default libraries
/// loaded and nothing else defined.
#[verifier::external_body]
pub(crate) fn lua_new_engine() -> (lua: mlua::Lua) {
    mlua::Lua::new()
}

/// Relies on `mlua::Lua`'s `Clone`: another reference-counted handle to
/// the same engine, keeping it alive as long as the handle lives.
#[verifier::external_body]
pub(crate) fn lua_clone_handle(lua: &mlua::Lua) -> (handle: mlua::Lua) {
    lua.clone()
}

/// Relies on `mlua::Lua::load` and `mlua::Chunk::eval`: compiles and runs
/// a script, expecting its top-level expression to yield a table; the
/// error carries the engine's diagnostic verbatim.
#[verifier::external_body]
pub(crate) fn lua_eval_table(lua: &mlua::Lua, source: &str) -> (r: Result<mlua::Table, String>) {
    lua.load(source).eval::<mlua::Table>().map_err(|e| e.to_string())
}

/// Relies on `mlua::Table::get` with a function target: the callable at a
/// key of the capability table, when the key holds one.
#[verifier::external_body]
pub(crate) fn table_get_function(table: &mlua::Table, key: &str) -> (r: Option<mlua::Function>) {
    table.get::<mlua::Function>(key).ok()
}

/// Relies on `mlua::Function::call` with no arguments and no results:
/// runs the callable; the error carries the engine's diagnostic.
#[verifier::external_body]
pub(crate) fn call_unit(f: &mlua::Function) -> (r: Result<(), String>) {
    f.call::<()>(()).map_err(|e| e.to_string())
}

/// Relies on `mlua::Function::call` with no arguments: runs the callable
/// and hands back whatever single value it returned.
#[verifier::external_body]
pub(crate) fn call_value(f: &mlua::Function) -> (r: Result<mlua::Value, String>) {
    f.call::<mlua::Value>(()).map_err(|e| e.to_string())
}

/// Relies on `mlua::Value::as_table`: the value itself, when it is a table.
#[verifier::external_body]
pub(crate) fn value_as_table(v: &mlua::Value) -> (r: Option<mlua::Table>) {
    v.as_table().cloned()
}

/// Relies on `mlua::Table::get` with an `i64` target: the value at a key,
/// when the engine can read it as a 64-bit integer.
#[verifier::external_body]
pub(crate) fn table_get_i64(table: &mlua::Table, key: &str) -> (r: Option<i64>) {
    table.get::<i64>(key).ok()
}

/// Relies on `mlua::Table::get` with a `String` target: the value at a
/// key, when the engine can read it as a string.
#[verifier::external_body]
pub(crate) fn table_get_string(table: &mlua::Table, key: &str) -> (r: Option<String>) {
    table.get::<String>(key).ok()
}

/// The file name the script loader recognizes as the entry script.
pub open spec fn is_entry_script_name(s: Seq<char>) -> bool {
    ascii_eq_ignore_case(s, "main.lua"@)
}

/// Checks one file name against the recognized entry-script name.
pub fn is_entry_script_file_name(name: &str) -> (r: bool)
    ensures
        r == is_entry_script_name(name@),
{
    eq_ignore_ascii_case_str(name, "main.lua")
}

/// The first directory entry holding the entry-script name, or
/// `EntryScriptNotFound` when no entry matches.
pub fn entry_script_index(entries: &Vec<String>) -> (r: Result<usize, FetchLuaError>)
    ensures
        r matches Ok(i) ==> i < entries.len() && is_entry_script_name(entries[i as int]@) && (
        forall|j: int| 0 <= j < i ==> !is_entry_script_name(entries[j]@)),
        r matches Err(e) ==> e is EntryScriptNotFound && (forall|j: int|
            0 <= j < entries.len() ==> !is_entry_script_name(entries[j]@)),
{
    let mut i: usize = 0;
    while i < entries.len()
        invariant
            0 <= i <= entries.len(),
            forall|j: int| 0 <= j < i ==> !is_entry_script_name(entries[j]@),
        decreases entries.len() - i,
    {
        if is_entry_script_file_name(entries[i].as_str()) {
            return Ok(i);
        }
        i += 1;
    }
    Err(FetchLuaError::EntryScriptNotFound)
}

} // verus!
