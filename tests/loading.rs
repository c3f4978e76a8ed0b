use wwm_core::config::ConfigError;
use wwm_core::document::Value;
use wwm_core::keybinding::{Direction, KeybindingType, SplitDirection};
use wwm_core::loading::{load, to_platform_color};

fn s(t: &str) -> Value {
    Value::Str(t.to_string())
}

fn entry(k: &str, v: Value) -> (Value, Value) {
    (s(k), v)
}

fn doc(entries: Vec<(Value, Value)>) -> Vec<Value> {
    vec![Value::Hash(entries)]
}

#[test]
fn unknown_keybinding_type_is_dropped() {
    let bindings = Value::List(vec![
        Value::Hash(vec![entry("key", s("Alt+B")), entry("type", s("Bogus"))]),
        Value::Hash(vec![entry("key", s("Alt+Q")), entry("type", s("Quit"))]),
    ]);
    let config = load(&doc(vec![entry("keybindings", bindings)])).unwrap();
    assert_eq!(config.keybindings.len(), 1);
    assert_eq!(config.keybindings[0].key, "Alt+Q");
    assert!(matches!(config.keybindings[0].typ, KeybindingType::Quit));
}

#[test]
fn only_unknown_keybinding_leaves_table_empty() {
    let bindings = Value::List(vec![Value::Hash(vec![entry("key", s("Alt+B")), entry("type", s("Bogus"))])]);
    let config = load(&doc(vec![entry("keybindings", bindings)])).unwrap();
    assert!(config.keybindings.is_empty());
}

#[test]
fn keybindings_with_fields() {
    let bindings = Value::List(vec![
        Value::Hash(vec![entry("key", s("Alt+Enter")), entry("type", s("Launch")), entry("cmd", s("wt.exe"))]),
        Value::Hash(vec![entry("key", s("Alt+H")), entry("type", s("Resize")), entry("direction", s("Left")), entry("amount", Value::Int(-2))]),
        Value::Hash(vec![entry("key", s("Alt+V")), entry("type", s("Split")), entry("direction", s("Vertical"))]),
        Value::Hash(vec![entry("key", s("Alt+I")), entry("type", s("IncrementConfig")), entry("field", s("margin")), entry("value", Value::Int(5))]),
        Value::Hash(vec![entry("key", s("Alt+1")), entry("type", s("ChangeWorkspace")), entry("id", Value::Int(1))]),
    ]);
    let config = load(&doc(vec![entry("keybindings", bindings)])).unwrap();
    assert_eq!(config.keybindings.len(), 5);
    match &config.keybindings[0].typ {
        KeybindingType::Launch(cmd) => assert_eq!(cmd, "wt.exe"),
        _ => panic!("expected Launch"),
    }
    assert!(matches!(config.keybindings[1].typ, KeybindingType::Resize(Direction::Left, -2)));
    assert!(matches!(config.keybindings[2].typ, KeybindingType::Split(SplitDirection::Vertical)));
    match &config.keybindings[3].typ {
        KeybindingType::IncrementConfig(f, v) => {
            assert_eq!(f, "margin");
            assert_eq!(*v, 5);
        }
        _ => panic!("expected IncrementConfig"),
    }
    assert!(matches!(config.keybindings[4].typ, KeybindingType::ChangeWorkspace(1)));
}

#[test]
fn keybinding_missing_required_field_fails() {
    let bindings = Value::List(vec![Value::Hash(vec![entry("key", s("Alt+Enter")), entry("type", s("Launch"))])]);
    assert!(load(&doc(vec![entry("keybindings", bindings)])).is_err());
    let bad_dir = Value::List(vec![Value::Hash(vec![entry("key", s("Alt+L")), entry("type", s("Focus")), entry("direction", s("Sideways"))])]);
    assert!(load(&doc(vec![entry("keybindings", bad_dir)])).is_err());
}

#[test]
fn scalars_rules_and_workspaces() {
    let config = load(&doc(vec![
        entry("app_bar_height", Value::Int(30)),
        entry("use_border", Value::Bool(true)),
        entry("app_bar_font", s("Cascadia")),
        entry("unknown_key", s("ignored")),
        entry("workspaces", Value::List(vec![
            Value::Hash(vec![entry("id", Value::Int(1)), entry("monitor", Value::Int(2))]),
            Value::Hash(vec![entry("id", Value::Int(3))]),
        ])),
        entry("rules", Value::List(vec![Value::Hash(vec![
            entry("pattern", s("^Firefox")),
            entry("firefox", Value::Bool(true)),
            entry("workspace", Value::Int(4)),
        ])])),
    ]))
    .unwrap();
    assert_eq!(config.app_bar_height, 30);
    assert!(config.use_border);
    assert_eq!(config.app_bar_font, "Consolas".replace("Consolas", "Cascadia"));
    assert_eq!(config.workspace_settings.len(), 2);
    assert_eq!((config.workspace_settings[0].id, config.workspace_settings[0].monitor), (1, 2));
    assert_eq!((config.workspace_settings[1].id, config.workspace_settings[1].monitor), (3, -1));
    assert_eq!(config.rules.len(), 1);
    assert_eq!(config.rules[0].pattern, "^Firefox");
    assert!(config.rules[0].firefox);
    assert!(config.rules[0].manage);
    assert_eq!(config.rules[0].workspace, 4);
    assert_eq!(config.app_bar_bg, 0x40342e);
}

#[test]
fn invalid_rule_pattern_fails_at_load() {
    let rules = Value::List(vec![Value::Hash(vec![entry("pattern", s("(unclosed"))])]);
    assert!(matches!(load(&doc(vec![entry("rules", rules)])), Err(ConfigError::Invalid(_))));
}

#[test]
fn malformed_documents_fail() {
    assert!(load(&doc(vec![entry("app_bar_height", s("tall"))])).is_err());
    assert!(load(&doc(vec![(Value::Int(1), Value::Int(2))])).is_err());
    assert!(load(&doc(vec![entry("rules", Value::Int(2))])).is_err());
    assert!(load(&doc(vec![entry("margin", Value::Int(1 << 40))])).is_err());
}

#[test]
fn non_map_or_empty_documents_give_defaults() {
    let c = load(&Vec::new()).unwrap();
    assert_eq!(c.app_bar_bg, 0x2e3440);
    assert_eq!(c.app_bar_height, 20);
    let c = load(&vec![Value::Null]).unwrap();
    assert_eq!(c.app_bar_bg, 0x2e3440);
}

#[test]
fn color_layout_conversion() {
    assert_eq!(to_platform_color(0x2e3440), 0x40342e);
    assert_eq!(to_platform_color(0x0000ff), 0xff0000);
    assert_eq!(to_platform_color(-1), 0x00ff_ffff);
}
