use wwm_core::component::{Component, ComponentText, HelloWorld, NoClick, OnClickFn, RenderFn};
use wwm_core::geometry::Display;

#[test]
fn component_text_accessors() {
    let basic = ComponentText::Basic("12:00".to_string());
    assert_eq!(basic.get_text(), "12:00");
    assert_eq!(basic.get_fg(), None);
    assert_eq!(basic.get_bg(), None);
    let colored = ComponentText::Colored(Some(0xff0000), None, "WS 1".to_string());
    assert_eq!(colored.get_text(), "WS 1");
    assert_eq!(colored.get_fg(), Some(0xff0000));
    assert_eq!(colored.get_bg(), None);
}

#[test]
fn default_component_greets() {
    let c: Component<HelloWorld, NoClick> = Component::default();
    assert_eq!(c.name, "Default");
    assert!(!c.is_clickable);
    let display = Display { id: 0, dpi: 96 };
    let segments = c.render(&display);
    assert_eq!(segments.len(), 1);
    assert_eq!(segments[0].get_text(), "Hello World");
    c.on_click(&display, 0);
}

#[test]
fn binding_a_click_handler_makes_component_clickable() {
    let mut c: Component<HelloWorld, NoClick> = Component::new("clock", HelloWorld);
    assert_eq!(c.name, "clock");
    assert!(!c.is_clickable);
    c.with_on_click(NoClick);
    assert!(c.is_clickable);
    let display = Display { id: 1, dpi: 144 };
    HelloWorld.render(&display);
    NoClick.on_click(&display, 3);
    c.on_click(&display, 5);
}
