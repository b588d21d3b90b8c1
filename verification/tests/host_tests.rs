use driad::host::PluginHost;
use driad::manifest::Metadata;
use driad::plugin::{
    CapabilityError, DrawCommand, LoadPluginError, LuaPluginApi, Plugin, PluginApi,
    marshal_draw_command,
};
use driad::script::FetchLuaError;
use driad::version::Version;

fn meta(name: &str) -> Metadata {
    Metadata {
        name: name.to_string(),
        authors: vec!["tester".to_string()],
        version: Version::new(0, 1, 0),
    }
}

fn draw_x(plugin: &Plugin) -> i32 {
    match plugin.try_draw_pass() {
        Some(Ok(cmd)) => cmd.x,
        other => panic!("expected a draw command, got {other:?}"),
    }
}

#[test]
fn plugin_with_only_draw_pass_has_no_init() {
    let mut host = PluginHost::new();
    let script = "return { draw_pass = function() return { x = 1, y = 2, glyph = \"@\" } end }";
    assert!(host.register_plugin(meta("p"), script).unwrap());
    let plugin = host.plugin_at(0);
    assert!(plugin.try_init().is_none());
    assert!(!plugin.has_init());
    assert!(plugin.has_draw_pass());
    let cmd = plugin.try_draw_pass().unwrap().unwrap();
    assert_eq!(cmd, DrawCommand { x: 1, y: 2, glyph: '@' });
}

#[test]
fn register_after_initialize_is_a_no_op() {
    let mut host = PluginHost::new();
    let probe =
        "return { draw_pass = function() return { x = (boot or 0), y = 0, glyph = \"b\" } end }";
    assert!(host.register_plugin(meta("probe"), probe).unwrap());
    assert!(host.initialize_all().unwrap());
    assert_eq!(host.plugin_count(), 1);
    assert!(!host.accepting());

    // The late script would set a global the probe can observe; it must
    // never be evaluated.
    let late = "boot = 1; return {}";
    assert_eq!(host.register_plugin(meta("late"), late).unwrap(), false);
    assert_eq!(host.plugin_count(), 1);
    assert_eq!(draw_x(host.plugin_at(0)), 0);
}

#[test]
fn initialize_all_runs_initializers_exactly_once() {
    let mut host = PluginHost::new();
    let script = "inits = 0\n\
                  return {\n\
                    init = function() inits = inits + 1 end,\n\
                    draw_pass = function() return { x = inits, y = 0, glyph = \"i\" } end,\n\
                  }";
    assert!(host.register_plugin(meta("counted"), script).unwrap());
    assert!(host.initialize_all().unwrap());
    assert_eq!(draw_x(host.plugin_at(0)), 1);
    // The second call is a no-op: it reports false and invokes nothing.
    assert_eq!(host.initialize_all().unwrap(), false);
    assert_eq!(draw_x(host.plugin_at(0)), 1);
}

#[test]
fn initialize_all_runs_in_registration_order() {
    let mut host = PluginHost::new();
    let first = "seq = 0\n\
                 return {\n\
                   init = function() first_rank = seq; seq = seq + 1 end,\n\
                   draw_pass = function() return { x = first_rank, y = 0, glyph = \"1\" } end,\n\
                 }";
    let second = "return {\n\
                    init = function() second_rank = seq; seq = seq + 1 end,\n\
                    draw_pass = function() return { x = second_rank, y = 0, glyph = \"2\" } end,\n\
                  }";
    assert!(host.register_plugin(meta("first"), first).unwrap());
    assert!(host.register_plugin(meta("second"), second).unwrap());
    assert!(host.initialize_all().unwrap());
    assert_eq!(draw_x(host.plugin_at(0)), 0);
    assert_eq!(draw_x(host.plugin_at(1)), 1);
}

#[test]
fn initialize_all_stops_at_first_failure() {
    let mut host = PluginHost::new();
    let failing = "return { init = function() error(\"boom\") end }";
    let counting = "ran = 0\n\
                    return {\n\
                      init = function() ran = ran + 1 end,\n\
                      draw_pass = function() return { x = ran, y = 0, glyph = \"r\" } end,\n\
                    }";
    assert!(host.register_plugin(meta("failing"), failing).unwrap());
    assert!(host.register_plugin(meta("counting"), counting).unwrap());
    let err = host.initialize_all().unwrap_err();
    match err {
        CapabilityError::Invocation(msg) => assert!(msg.contains("boom")),
        other => panic!("expected an invocation error, got {other:?}"),
    }
    // Fail-fast: the plugin registered after the failing one never ran.
    assert_eq!(draw_x(host.plugin_at(1)), 0);
    // The host never transitioned, so initialization may be retried.
    assert!(host.accepting());
}

#[test]
fn malformed_draw_return_is_typed_and_isolated() {
    let mut host = PluginHost::new();
    let garbage = "return { draw_pass = function() \
                     return { x = \"not-a-number\", y = 2, glyph = \"@\" } end }";
    let sound = "return { draw_pass = function() \
                   return { x = 5, y = 6, glyph = \"#\" } end }";
    assert!(host.register_plugin(meta("garbage"), garbage).unwrap());
    assert!(host.register_plugin(meta("sound"), sound).unwrap());
    match host.plugin_at(0).try_draw_pass() {
        Some(Err(CapabilityError::MalformedReturn(_))) => {},
        other => panic!("expected a marshaling error, got {other:?}"),
    }
    // The neighbour is untouched by the garbage return, again and again.
    assert_eq!(
        host.plugin_at(1).try_draw_pass().unwrap().unwrap(),
        DrawCommand { x: 5, y: 6, glyph: '#' }
    );
    assert!(matches!(
        host.plugin_at(0).try_draw_pass(),
        Some(Err(CapabilityError::MalformedReturn(_)))
    ));
    assert_eq!(
        host.plugin_at(1).try_draw_pass().unwrap().unwrap(),
        DrawCommand { x: 5, y: 6, glyph: '#' }
    );
}

#[test]
fn draw_pass_runtime_fault_is_an_invocation_error() {
    let mut host = PluginHost::new();
    let script = "return { draw_pass = function() error(\"draw exploded\") end }";
    assert!(host.register_plugin(meta("p"), script).unwrap());
    match host.plugin_at(0).try_draw_pass() {
        Some(Err(CapabilityError::Invocation(msg))) => assert!(msg.contains("draw exploded")),
        other => panic!("expected an invocation error, got {other:?}"),
    }
}

#[test]
fn non_table_draw_return_is_malformed() {
    let mut host = PluginHost::new();
    let script = "return { draw_pass = function() return 17 end }";
    assert!(host.register_plugin(meta("p"), script).unwrap());
    assert!(matches!(
        host.plugin_at(0).try_draw_pass(),
        Some(Err(CapabilityError::MalformedReturn(_)))
    ));
}

#[test]
fn script_evaluation_errors_propagate() {
    let mut host = PluginHost::new();
    match host.register_plugin(meta("broken"), "this is not a script") {
        Err(LoadPluginError::FetchLuaError(FetchLuaError::ScriptEvaluationError(msg))) => {
            assert!(!msg.is_empty());
        },
        other => panic!("expected a script evaluation error, got {other:?}"),
    }
    assert_eq!(host.plugin_count(), 0);

    // A top-level expression that is not a table fails the same way.
    match host.register_plugin(meta("scalar"), "return 5") {
        Err(LoadPluginError::FetchLuaError(FetchLuaError::ScriptEvaluationError(_))) => {},
        other => panic!("expected a script evaluation error, got {other:?}"),
    }
    assert_eq!(host.plugin_count(), 0);

    // The host still accepts a sound plugin afterwards.
    assert!(host.register_plugin(meta("fine"), "return {}").unwrap());
    assert_eq!(host.plugin_count(), 1);
}

#[test]
fn engine_is_shared_across_plugins() {
    let mut host = PluginHost::new();
    let writer = "shared_flag = 42; return {}";
    let reader =
        "return { draw_pass = function() return { x = shared_flag, y = 0, glyph = \"s\" } end }";
    assert!(host.register_plugin(meta("writer"), writer).unwrap());
    assert!(host.register_plugin(meta("reader"), reader).unwrap());
    assert_eq!(draw_x(host.plugin_at(1)), 42);
}

#[test]
fn plugin_from_parts_binds_capabilities() {
    let lua = mlua::Lua::new();
    let table: mlua::Table = lua.load("return { init = function() end }").eval().unwrap();
    let plugin = Plugin::new_from_parts(&lua, meta("direct"), table);
    assert_eq!(plugin.metadata.name, "direct");
    assert!(plugin.has_init());
    assert!(!plugin.has_draw_pass());
    assert!(matches!(plugin.try_init(), Some(Ok(()))));
    assert!(plugin.try_draw_pass().is_none());
}

#[test]
fn initialize_succeeds_when_no_plugin_declares_init() {
    let mut host = PluginHost::new();
    assert_eq!(host.initialize_all().unwrap(), true);

    let mut host = PluginHost::new();
    let script = "return { draw_pass = function() return { x = 0, y = 0, glyph = \"n\" } end }";
    assert!(host.register_plugin(meta("no-init"), script).unwrap());
    assert!(host.register_plugin(meta("empty"), "return {}").unwrap());
    assert_eq!(host.initialize_all().unwrap(), true);
    assert!(!host.accepting());
}

#[test]
fn bridge_from_callables_declares_exactly_what_is_given() {
    let lua = mlua::Lua::new();
    let draw: mlua::Function = lua
        .load("return function() return { x = 8, y = 9, glyph = \"d\" } end")
        .eval()
        .unwrap();
    let api = LuaPluginApi::from_callables(&lua, None, Some(draw));
    assert!(!api.has_init());
    assert!(api.has_draw_pass());
    assert!(api.try_init().is_none());
    assert_eq!(
        api.try_draw_pass().unwrap().unwrap(),
        DrawCommand { x: 8, y: 9, glyph: 'd' }
    );

    let none = LuaPluginApi::from_callables(&lua, None, None);
    assert!(!none.has_init());
    assert!(!none.has_draw_pass());
}

#[test]
fn capability_table_ignores_unrecognized_entries() {
    let lua = mlua::Lua::new();
    let table: mlua::Table = lua
        .load("return { shutdown = function() end, volume = 11 }")
        .eval()
        .unwrap();
    let api = LuaPluginApi::new(&lua, table);
    assert!(!api.has_init());
    assert!(!api.has_draw_pass());
    assert!(api.try_init().is_none());
    assert!(api.try_draw_pass().is_none());
}

#[test]
fn plugin_api_trait_delegates_to_bridge() {
    let lua = mlua::Lua::new();
    let table: mlua::Table = lua
        .load("return { draw_pass = function() return { x = 3, y = 4, glyph = \"t\" } end }")
        .eval()
        .unwrap();
    let api = LuaPluginApi::new(&lua, table);
    assert!(PluginApi::init(&api).is_none());
    let cmd = PluginApi::draw_pass(&api).unwrap().unwrap();
    assert_eq!(cmd, DrawCommand { x: 3, y: 4, glyph: 't' });
}

#[test]
fn marshal_accepts_exact_shape() {
    let r = marshal_draw_command(Some(7), Some(-3), Some("z".to_string()));
    assert_eq!(r.unwrap(), DrawCommand { x: 7, y: -3, glyph: 'z' });
}

#[test]
fn marshal_accepts_boundary_coordinates() {
    let r = marshal_draw_command(
        Some(i32::MIN as i64),
        Some(i32::MAX as i64),
        Some("é".to_string()),
    );
    assert_eq!(r.unwrap(), DrawCommand { x: i32::MIN, y: i32::MAX, glyph: 'é' });
}

#[test]
fn marshal_rejects_missing_or_oversized_fields() {
    assert!(matches!(
        marshal_draw_command(None, Some(0), Some("a".to_string())),
        Err(CapabilityError::MalformedReturn(_))
    ));
    assert!(matches!(
        marshal_draw_command(Some(0), None, Some("a".to_string())),
        Err(CapabilityError::MalformedReturn(_))
    ));
    assert!(matches!(
        marshal_draw_command(Some(0), Some(0), None),
        Err(CapabilityError::MalformedReturn(_))
    ));
    assert!(matches!(
        marshal_draw_command(Some(i32::MAX as i64 + 1), Some(0), Some("a".to_string())),
        Err(CapabilityError::MalformedReturn(_))
    ));
    assert!(matches!(
        marshal_draw_command(Some(0), Some(i32::MIN as i64 - 1), Some("a".to_string())),
        Err(CapabilityError::MalformedReturn(_))
    ));
    assert!(matches!(
        marshal_draw_command(Some(0), Some(0), Some(String::new())),
        Err(CapabilityError::MalformedReturn(_))
    ));
    assert!(matches!(
        marshal_draw_command(Some(0), Some(0), Some("ab".to_string())),
        Err(CapabilityError::MalformedReturn(_))
    ));
}

#[test]
fn numeric_glyph_does_not_marshal() {
    let mut host = PluginHost::new();
    // The engine reads the number 64 back as the two-character string
    // "64", which is not a single glyph.
    let script = "return { draw_pass = function() return { x = 0, y = 0, glyph = 64 } end }";
    assert!(host.register_plugin(meta("p"), script).unwrap());
    assert!(matches!(
        host.plugin_at(0).try_draw_pass(),
        Some(Err(CapabilityError::MalformedReturn(_)))
    ));
}

#[test]
fn entry_script_lookup_is_case_insensitive() {
    let entries = vec!["README".to_string(), "MAIN.LUA".to_string()];
    assert_eq!(driad::script::entry_script_index(&entries).unwrap(), 1);
    let entries = vec!["metadata.toml".to_string()];
    assert!(matches!(
        driad::script::entry_script_index(&entries),
        Err(FetchLuaError::EntryScriptNotFound)
    ));
}
