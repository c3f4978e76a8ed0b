use wwm_core::keybinding::{find_binding, Keybinding, KeybindingType};
use wwm_core::rule::{find_rule, is_valid_pattern, match_rule, Rule};

fn rule(pattern: &str, workspace: i32) -> Rule {
    let mut r = Rule::new();
    r.pattern = pattern.to_string();
    r.workspace = workspace;
    r
}

#[test]
fn first_matching_rule_wins() {
    let rules = vec![rule("fire", 1), rule("fox", 2)];
    assert_eq!(find_rule(&rules, "firefox"), Some(0));
    let picked = match_rule(&rules, "firefox").unwrap();
    assert_eq!(picked.workspace, 1);
    assert_eq!(picked.pattern, "fire");
}

#[test]
fn later_rule_matches_when_earlier_does_not() {
    let rules = vec![rule("^code$", 1), rule("fox", 2)];
    assert_eq!(find_rule(&rules, "firefox"), Some(1));
    assert_eq!(find_rule(&rules, "terminal"), None);
    assert!(match_rule(&rules, "terminal").is_none());
}

#[test]
fn empty_rule_list_matches_nothing() {
    let rules: Vec<Rule> = Vec::new();
    assert_eq!(find_rule(&rules, "anything"), None);
}

#[test]
fn default_rule_flags() {
    let r = Rule::default();
    assert!(r.manage);
    assert!(r.remove_frame);
    assert!(!r.chromium);
    assert!(!r.firefox);
    assert!(!r.has_custom_titlebar);
    assert_eq!(r.workspace, -1);
    assert_eq!(r.pattern, "");
    assert!(r.matches("any title at all"));
}

#[test]
fn invalid_pattern_matches_nothing() {
    assert!(!is_valid_pattern("(unclosed"));
    assert!(is_valid_pattern("^Mozilla.*$"));
    let rules = vec![rule("(unclosed", 1), rule(".*", 2)];
    assert_eq!(find_rule(&rules, "(unclosed"), Some(1));
}

#[test]
fn later_binding_shadows_earlier() {
    let bindings = vec![
        Keybinding { key: "Alt+Q".to_string(), typ: KeybindingType::Quit },
        Keybinding { key: "Alt+Enter".to_string(), typ: KeybindingType::Launch("wt.exe".to_string()) },
        Keybinding { key: "Alt+Q".to_string(), typ: KeybindingType::CloseTile },
    ];
    assert_eq!(find_binding(&bindings, "Alt+Q"), Some(2));
    assert_eq!(find_binding(&bindings, "Alt+Enter"), Some(1));
    assert_eq!(find_binding(&bindings, "Alt+X"), None);
}
