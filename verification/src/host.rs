//! The plugin host: owns the shared scripting engine and the ordered
//! plugin collection, and enforces the one-shot initialization lifecycle.

use vstd::prelude::*;

use crate::manifest::Metadata;
use crate::plugin::{CapabilityError, LoadPluginError, Plugin};
use crate::script::{FetchLuaError, lua_clone_handle, lua_eval_table, lua_new_engine};

verus! {

/// How the embedding application asks for its window. Plain data; the
/// windowing collaborator consumes it.
#[derive(Debug)]
pub struct WindowProperties {
    pub width: u32,
    pub height: u32,
    pub name: &'static str,
    pub centered: bool,
    pub borderless: bool,
}

impl Default for WindowProperties {
    /// An 80 by 60 cell window, centered, with a border.
    fn default() -> (p: WindowProperties)
        ensures
            p.width == 80,
            p.height == 60,
            p.name@ == "Driad Window"@,
            p.centered == true,
            p.borderless == false,
    {
        WindowProperties {
            width: 80,
            height: 60,
            name: "Driad Window",
            centered: true,
            borderless: false,
        }
    }
}

/// Owns the shared scripting engine and the registered plugins. The
/// lifecycle is append-only until `initialize_all` succeeds; after that
/// the collection is frozen and initialization never runs again.
pub struct PluginHost {
    lua: mlua::Lua,
    plugins: Vec<Plugin>,
    initialized: bool,
}

impl PluginHost {
    /// Whether `initialize_all` has already succeeded: the one-shot,
    /// irreversible transition of the host.
    pub closed spec fn spec_running(&self) -> bool {
        self.initialized
    }

    /// The registered plugins, in registration order.
    pub closed spec fn spec_plugins(&self) -> Seq<Plugin> {
        self.plugins@
    }

    /// A host with a fresh engine, no plugins, and initialization still
    /// ahead of it.
    pub fn new() -> (host: PluginHost)
        ensures
            !host.spec_running(),
            host.spec_plugins() == Seq::<Plugin>::empty(),
    {
        PluginHost { lua: lua_new_engine(), plugins: Vec::new(), initialized: false }
    }

    /// Whether the host still accepts registrations.
    pub fn accepting(&self) -> (r: bool)
        ensures
            r == !self.spec_running(),
    {
        !self.initialized
    }

    /// A handle to the shared engine, for binding capability tables that
    /// were evaluated elsewhere against it.
    pub fn engine(&self) -> (lua: mlua::Lua) {
        lua_clone_handle(&self.lua)
    }

    /// The number of registered plugins.
    pub fn plugin_count(&self) -> (n: usize)
        ensures
            n == self.spec_plugins().len(),
    {
        self.plugins.len()
    }

    /// The registered plugins, in registration order; the order is stable
    /// across calls.
    pub fn plugins(&self) -> (ps: &Vec<Plugin>)
        ensures
            ps@ == self.spec_plugins(),
    {
        &self.plugins
    }

    /// The plugin at a position in registration order.
    pub fn plugin_at(&self, i: usize) -> (p: &Plugin)
        requires
            i < self.spec_plugins().len(),
        ensures
            *p == self.spec_plugins()[i as int],
    {
        &self.plugins[i]
    }

    /// Registers a plugin from decoded metadata and entry-script source:
    /// evaluates the script against the host's engine and appends the
    /// plugin. Once the host is running this is a no-op returning
    /// `Ok(false)`: nothing is evaluated and nothing changes.
    pub fn register_plugin(&mut self, metadata: Metadata, script_source: &str) -> (r: Result<
        bool,
        LoadPluginError,
    >)
        ensures
            final(self).spec_running() == old(self).spec_running(),
            old(self).spec_running() ==> r == Ok::<bool, LoadPluginError>(false)
                && final(self).spec_plugins() == old(self).spec_plugins(),
            !old(self).spec_running() ==> match r {
                Ok(b) => {
                    &&& b == true
                    &&& final(self).spec_plugins().len() == old(self).spec_plugins().len() + 1
                    &&& final(self).spec_plugins().take(old(self).spec_plugins().len() as int) == old(
                        self,
                    ).spec_plugins()
                    &&& final(self).spec_plugins().last().spec_metadata() == metadata
                },
                Err(e) => {
                    &&& final(self).spec_plugins() == old(self).spec_plugins()
                    &&& e matches LoadPluginError::FetchLuaError(
                        FetchLuaError::ScriptEvaluationError(_),
                    )
                },
            },
    {
        if self.initialized {
            return Ok(false);
        }
        let table = match lua_eval_table(&self.lua, script_source) {
            Ok(t) => t,
            Err(msg) => {
                return Err(
                    LoadPluginError::FetchLuaError(FetchLuaError::ScriptEvaluationError(msg)),
                );
            },
        };
        let plugin = Plugin::new_from_parts(&self.lua, metadata, table);
        self.plugins.push(plugin);
        proof {
            assert(self.plugins@.take(old(self).plugins@.len() as int) =~= old(self).plugins@);
        }
        Ok(true)
    }

    /// Runs every registered plugin's `init` in registration order,
    /// stopping at and propagating the first failure; no plugin after a
    /// failing one is invoked. On success the host transitions to
    /// running, irreversibly, and returns `Ok(true)`; when no registered
    /// plugin declares an initializer the call always succeeds. Once
    /// running this is a no-op returning `Ok(false)`: the capability
    /// callables are never invoked a second time through this method.
    #[verifier::loop_isolation(false)]
    pub fn initialize_all(&mut self) -> (r: Result<bool, CapabilityError>)
        ensures
            final(self).spec_plugins() == old(self).spec_plugins(),
            old(self).spec_running() ==> r == Ok::<bool, CapabilityError>(false)
                && final(self).spec_running(),
            !old(self).spec_running() ==> match r {
                Ok(b) => b == true && final(self).spec_running(),
                Err(e) => !final(self).spec_running() && e is Invocation,
            },
            !old(self).spec_running() && (forall|k: int|
                0 <= k < old(self).spec_plugins().len()
                    ==> !old(self).spec_plugins()[k].spec_has_init()) ==> r == Ok::<
                bool,
                CapabilityError,
            >(true),
    {
        if self.initialized {
            return Ok(false);
        }
        let mut i: usize = 0;
        while i < self.plugins.len()
            invariant
                0 <= i <= self.plugins.len(),
                *self == *old(self),
            decreases self.plugins.len() - i,
        {
            if let Some(outcome) = self.plugins[i].try_init() {
                if let Err(e) = outcome {
                    return Err(e);
                }
            }
            i += 1;
        }
        self.initialized = true;
        Ok(true)
    }
}

} // verus!
