use wwm_core::config::Config;
use wwm_core::geometry::Rect;
use wwm_core::rule::Rule;
use wwm_core::style::{GwlExStyle, GwlStyle, WS_BORDER, WS_CAPTION, WS_THICKFRAME};
use wwm_core::window::{Window, WindowCommand};

const S0: u32 = 0x14CF_0000;

fn managed(maximized: bool, rule: Option<Rule>) -> Window {
    Window::manage(
        42,
        "Editor".to_string(),
        maximized,
        rule,
        GwlStyle::from_bits(S0),
        GwlExStyle::from_bits(0x100),
        Rect { left: 10, top: 20, right: 810, bottom: 620 },
    )
}

#[test]
fn new_window_has_nothing_captured() {
    let w = Window::new(5);
    assert_eq!(w.id, 5);
    assert_eq!(w.title, "");
    assert!(!w.maximized);
    assert!(w.rule.is_none());
    assert_eq!(w.style.bits(), 0);
    assert_eq!(w.original_rect, Rect::default());
}

#[test]
fn reset_restores_captured_style_and_rect() {
    let mut w = managed(false, None);
    let mut config = Config::new();
    config.use_border = true;
    w.remove_title_bar(&config);
    assert_ne!(w.style.bits(), S0);
    w.style.insert(0x8);
    let commands = w.reset();
    assert_eq!(w.style.bits(), S0);
    assert_eq!(
        commands,
        vec![
            WindowCommand::SetStyle(S0),
            WindowCommand::Reposition(Rect { left: 10, top: 20, right: 810, bottom: 620 }),
        ]
    );
}

#[test]
fn reset_maximizes_again_last() {
    let mut w = managed(true, None);
    w.style = GwlStyle::from_bits(0);
    let commands = w.reset();
    assert_eq!(commands.len(), 3);
    assert_eq!(commands[0], WindowCommand::SetStyle(S0));
    assert_eq!(commands[2], WindowCommand::Maximize);
}

#[test]
fn remove_title_bar_strips_caption_and_frame() {
    let mut w = managed(false, None);
    let config = Config::new();
    w.remove_title_bar(&config);
    assert!(!w.style.contains(WS_CAPTION));
    assert!(!w.style.contains(WS_THICKFRAME));
    assert_eq!(w.style.bits(), S0 & !WS_CAPTION & !WS_THICKFRAME);
    assert_eq!(w.original_style.bits(), S0);
}

#[test]
fn remove_title_bar_keeps_browser_chrome() {
    let mut rule = Rule::new();
    rule.chromium = true;
    let mut w = managed(false, Some(rule));
    let mut config = Config::new();
    config.use_border = true;
    w.remove_title_bar(&config);
    assert_eq!(w.style.bits(), S0 | WS_BORDER);
}

#[test]
fn remove_title_bar_is_idempotent() {
    let mut w = managed(false, None);
    let mut config = Config::new();
    config.use_border = true;
    w.remove_title_bar(&config);
    let once = w.style;
    w.remove_title_bar(&config);
    assert_eq!(w.style, once);
    assert!(w.style.contains(WS_BORDER));
}

#[test]
fn update_commands_carry_current_bits() {
    let w = managed(false, None);
    assert_eq!(w.update_style(), WindowCommand::SetStyle(S0));
    assert_eq!(w.update_exstyle(), WindowCommand::SetExStyle(0x100));
    assert_eq!(w.reset_pos(), WindowCommand::Reposition(w.original_rect));
}

#[test]
fn style_bits_round_trip() {
    let mut s = GwlStyle::from_bits(0xDEAD_BEEF);
    assert_eq!(s.bits(), 0xDEAD_BEEF);
    s.remove(WS_CAPTION);
    assert!(!s.contains(WS_CAPTION));
    s.insert(WS_CAPTION);
    assert!(s.contains(WS_CAPTION));
    let e = GwlExStyle::from_bits(0x8);
    assert!(e.contains(0x8));
    assert_eq!(GwlStyle::empty().bits(), 0);
}

#[test]
fn process_name_is_last_path_segment() {
    assert_eq!(Window::get_process_name("C:\\Program Files\\Mozilla Firefox\\firefox.exe"), "firefox.exe");
    assert_eq!(Window::get_process_name("explorer.exe"), "explorer.exe");
    assert_eq!(Window::get_process_name("C:\\Windows\\"), "");
    assert_eq!(Window::get_process_name(""), "");
}

#[test]
fn default_window_is_handle_zero() {
    let w = Window::default();
    assert_eq!(w.id, 0);
    assert!(w.rule.is_none());
}
