use wwm_core::config::Config;
use wwm_core::geometry::{FrameMetrics, Rect};
use wwm_core::rule::Rule;
use wwm_core::style::{GwlExStyle, GwlStyle};
use wwm_core::window::Window;

fn metrics() -> FrameMetrics {
    FrameMetrics {
        border_width: 4,
        border_height: 4,
        caption_height: 23,
        frame: Rect { left: 0, top: 0, right: 0, bottom: 0 },
    }
}

fn window_with(rule: Option<Rule>) -> Window {
    Window::manage(
        7,
        "w".to_string(),
        false,
        rule,
        GwlStyle::from_bits(0),
        GwlExStyle::from_bits(0),
        Rect::default(),
    )
}

fn rect(left: i32, top: i32, right: i32, bottom: i32) -> Rect {
    Rect { left, top, right, bottom }
}

#[test]
fn plain_window_keeping_title_bar() {
    let config = Config::new();
    let w = window_with(None);
    let r = w.calculate_window_rect(&config, &metrics(), 0, 0, 800, 600);
    assert_eq!(r, Some(rect(0, 31, 800, 600)));
}

#[test]
fn plain_window_with_title_bar_removed() {
    let mut config = Config::new();
    config.remove_title_bar = true;
    let w = window_with(None);
    assert_eq!(w.calculate_window_rect(&config, &metrics(), 0, 0, 800, 600), Some(rect(0, 0, 800, 600)));
    config.use_border = true;
    assert_eq!(w.calculate_window_rect(&config, &metrics(), 0, 0, 800, 600), Some(rect(1, 1, 799, 599)));
}

#[test]
fn chromium_window() {
    let mut config = Config::new();
    config.remove_title_bar = true;
    let mut rule = Rule::new();
    rule.chromium = true;
    let w = window_with(Some(rule));
    assert_eq!(w.calculate_window_rect(&config, &metrics(), 0, 0, 800, 600), Some(rect(0, 29, 800, 600)));
}

#[test]
fn firefox_window() {
    let mut config = Config::new();
    config.remove_title_bar = true;
    let mut rule = Rule::new();
    rule.firefox = true;
    let w = window_with(Some(rule));
    assert_eq!(w.calculate_window_rect(&config, &metrics(), 0, 0, 800, 600), Some(rect(2, 31, 798, 598)));
}

#[test]
fn custom_titlebar_window_keeping_title_bar() {
    let config = Config::new();
    let mut rule = Rule::new();
    rule.has_custom_titlebar = true;
    let w = window_with(Some(rule));
    assert_eq!(w.calculate_window_rect(&config, &metrics(), 0, 0, 800, 600), Some(rect(8, 31, 792, 592)));
}

#[test]
fn status_bar_shifts_the_tile_down() {
    let mut config = Config::new();
    config.display_app_bar = true;
    let w = window_with(None);
    assert_eq!(w.calculate_window_rect(&config, &metrics(), 0, 0, 800, 600), Some(rect(0, 51, 800, 620)));
}

#[test]
fn platform_frame_is_added_last() {
    let config = Config::new();
    let mut m = metrics();
    m.frame = rect(-8, -31, 8, 8);
    let w = window_with(None);
    assert_eq!(w.calculate_window_rect(&config, &m, 0, 0, 800, 600), Some(rect(-8, 0, 808, 608)));
}

#[test]
fn geometry_is_deterministic() {
    let mut config = Config::new();
    config.remove_title_bar = true;
    config.use_border = true;
    let w = window_with(None);
    let first = w.calculate_window_rect(&config, &metrics(), 10, 20, 640, 480);
    let second = w.calculate_window_rect(&config, &metrics(), 10, 20, 640, 480);
    assert_eq!(first, second);
    assert_eq!(first, Some(rect(11, 21, 649, 499)));
}

#[test]
fn no_rule_behaves_as_explicit_default_rule() {
    for remove in [false, true] {
        for border in [false, true] {
            let mut config = Config::new();
            config.remove_title_bar = remove;
            config.use_border = border;
            let bare = window_with(None);
            let explicit = window_with(Some(Rule::default()));
            assert_eq!(
                bare.calculate_window_rect(&config, &metrics(), 3, 4, 500, 400),
                explicit.calculate_window_rect(&config, &metrics(), 3, 4, 500, 400)
            );
            let mut a = window_with(None);
            let mut b = window_with(Some(Rule::default()));
            a.style = GwlStyle::from_bits(0x00CF_0000);
            b.style = GwlStyle::from_bits(0x00CF_0000);
            a.remove_title_bar(&config);
            b.remove_title_bar(&config);
            assert_eq!(a.style, b.style);
        }
    }
}

#[test]
fn edge_out_of_range_gives_none() {
    let config = Config::new();
    let w = window_with(None);
    assert_eq!(w.calculate_window_rect(&config, &metrics(), 0, i32::MAX, 800, 600), None);
}
