//! A plugin host: discovers plugin packages, parses their manifests,
//! evaluates their entry scripts against a shared Lua engine, and exposes
//! each plugin's capabilities to the host through typed, optional accessors.

pub mod color;
pub mod font;
pub mod host;
pub mod manifest;
pub mod plugin;
pub mod script;
pub mod version;
