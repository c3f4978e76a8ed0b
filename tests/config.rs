use wwm_core::config::{Config, ConfigError, NumericField, ToggleField, WorkspaceSetting};

#[test]
fn new_config_defaults() {
    let c = Config::new();
    assert_eq!(c.app_bar_height, 20);
    assert_eq!(c.app_bar_bg, 0x2e3440);
    assert_eq!(c.app_bar_font, "Consolas");
    assert_eq!(c.app_bar_font_size, 18);
    assert_eq!(c.app_bar_date_pattern, "%e %b %Y");
    assert_eq!(c.app_bar_time_pattern, "%T");
    assert!(c.work_mode);
    assert!(!c.remove_title_bar);
    assert!(c.rules.is_empty());
    let w = WorkspaceSetting::default();
    assert_eq!((w.id, w.monitor), (-1, -1));
}

#[test]
fn increment_known_field() {
    let mut c = Config::new();
    assert_eq!(c.increment_field("app_bar_height", 2), Ok(()));
    assert_eq!(c.app_bar_height, 22);
    assert_eq!(c.decrement_field("margin", 3), Ok(()));
    assert_eq!(c.margin, -3);
    assert_eq!(c.increment_field("app_bar_bg", 1), Ok(()));
    assert_eq!(c.app_bar_bg, 0x2e3441);
}

#[test]
fn increment_unknown_field_is_reported_no_op() {
    let mut c = Config::new();
    let r = c.increment_field("not_a_field", 2);
    assert_eq!(r, Err(ConfigError::UnknownField("not_a_field".to_string())));
    assert_eq!(c.app_bar_height, 20);
    assert_eq!(c.margin, 0);
    assert_eq!(c.padding, 0);
    assert_eq!(c.app_bar_font_size, 18);
    assert_eq!(c.app_bar_bg, 0x2e3440);
    assert_eq!(c.min_width, 0);
}

#[test]
fn toggle_known_and_unknown_fields() {
    let mut c = Config::new();
    assert_eq!(c.toggle_field("use_border"), Ok(()));
    assert!(c.use_border);
    assert_eq!(c.toggle_field("use_border"), Ok(()));
    assert!(!c.use_border);
    assert_eq!(c.toggle_field("display_app_bar"), Ok(()));
    assert!(c.display_app_bar);
    assert_eq!(c.toggle_field("work_mode"), Err(ConfigError::UnknownField("work_mode".to_string())));
    assert!(c.work_mode);
}

#[test]
fn field_names_resolve() {
    assert_eq!(NumericField::from_name("padding"), Some(NumericField::Padding));
    assert_eq!(NumericField::from_name("min_width"), None);
    assert_eq!(ToggleField::from_name("light_theme"), Some(ToggleField::LightTheme));
    assert_eq!(ToggleField::from_name("margin"), None);
}

#[test]
fn change_fit_check() {
    let mut c = Config::new();
    c.padding = i32::MAX;
    assert!(!c.can_change("padding", 1));
    assert!(c.can_change("padding", -1));
    assert!(c.can_change("unknown", i32::MAX));
}

#[test]
fn default_equals_new() {
    let a = Config::default();
    let b = Config::new();
    assert_eq!(a.app_bar_height, b.app_bar_height);
    assert_eq!(a.app_bar_font, b.app_bar_font);
    assert_eq!(a.work_mode, b.work_mode);
}
