//! Building a configuration from its structured document. Unknown top-level
//! keys are ignored, a binding of an unknown type is dropped, and anything
//! malformed rejects the whole document.
use vstd::prelude::*;
use crate::config::{default_config_view, Config, ConfigError, ConfigView, WorkspaceSetting};
use crate::document::{as_bool, as_i32, as_text, field, Value};
use crate::keybinding::{
    direction_named,
    split_direction_named,
    ActionView,
    Direction,
    Keybinding,
    KeybindingType,
    KeybindingView,
    SplitDirection,
};
use crate::rule::{default_rule_view, is_valid_pattern, pattern_is_valid, Rule, RuleView};
use crate::text::same_text;

verus! {

/// The scalar settings that a document can set by key.
#[derive(Clone, Copy, Debug, PartialEq, Eq, Structural)]
pub enum Scalar {
    AppBarFont,
    AppBarDatePattern,
    AppBarTimePattern,
    AppBarBg,
    AppBarFontSize,
    AppBarHeight,
    MinWidth,
    MinHeight,
    Margin,
    Padding,
    UseBorder,
    LightTheme,
    LaunchOnStartup,
    WorkMode,
    MultiMonitor,
    RemoveTitleBar,
    RemoveTaskBar,
    DisplayAppBar,
}

pub open spec fn scalar_named(name: Seq<char>) -> Option<Scalar> {
    if name == "app_bar_font"@ {
        Some(Scalar::AppBarFont)
    } else if name == "app_bar_date_pattern"@ {
        Some(Scalar::AppBarDatePattern)
    } else if name == "app_bar_time_pattern"@ {
        Some(Scalar::AppBarTimePattern)
    } else if name == "app_bar_bg"@ {
        Some(Scalar::AppBarBg)
    } else if name == "app_bar_font_size"@ {
        Some(Scalar::AppBarFontSize)
    } else if name == "app_bar_height"@ {
        Some(Scalar::AppBarHeight)
    } else if name == "min_width"@ {
        Some(Scalar::MinWidth)
    } else if name == "min_height"@ {
        Some(Scalar::MinHeight)
    } else if name == "margin"@ {
        Some(Scalar::Margin)
    } else if name == "padding"@ {
        Some(Scalar::Padding)
    } else if name == "use_border"@ {
        Some(Scalar::UseBorder)
    } else if name == "light_theme"@ {
        Some(Scalar::LightTheme)
    } else if name == "launch_on_startup"@ {
        Some(Scalar::LaunchOnStartup)
    } else if name == "work_mode"@ {
        Some(Scalar::WorkMode)
    } else if name == "multi_monitor"@ {
        Some(Scalar::MultiMonitor)
    } else if name == "remove_title_bar"@ {
        Some(Scalar::RemoveTitleBar)
    } else if name == "remove_task_bar"@ {
        Some(Scalar::RemoveTaskBar)
    } else if name == "display_app_bar"@ {
        Some(Scalar::DisplayAppBar)
    } else {
        None
    }
}

/// `c` with scalar `f` set from `v`; nothing when `v` is not of the setting's kind.
pub open spec fn with_scalar(c: ConfigView, f: Scalar, v: Value) -> Option<ConfigView> {
    match f {
        Scalar::AppBarFont => match as_text(v) {
            Some(t) => Some(ConfigView { app_bar_font: t, ..c }),
            None => None,
        },
        Scalar::AppBarDatePattern => match as_text(v) {
            Some(t) => Some(ConfigView { app_bar_date_pattern: t, ..c }),
            None => None,
        },
        Scalar::AppBarTimePattern => match as_text(v) {
            Some(t) => Some(ConfigView { app_bar_time_pattern: t, ..c }),
            None => None,
        },
        Scalar::AppBarBg => match as_i32(v) {
            Some(n) => Some(ConfigView { app_bar_bg: n, ..c }),
            None => None,
        },
        Scalar::AppBarFontSize => match as_i32(v) {
            Some(n) => Some(ConfigView { app_bar_font_size: n, ..c }),
            None => None,
        },
        Scalar::AppBarHeight => match as_i32(v) {
            Some(n) => Some(ConfigView { app_bar_height: n, ..c }),
            None => None,
        },
        Scalar::MinWidth => match as_i32(v) {
            Some(n) => Some(ConfigView { min_width: n, ..c }),
            None => None,
        },
        Scalar::MinHeight => match as_i32(v) {
            Some(n) => Some(ConfigView { min_height: n, ..c }),
            None => None,
        },
        Scalar::Margin => match as_i32(v) {
            Some(n) => Some(ConfigView { margin: n, ..c }),
            None => None,
        },
        Scalar::Padding => match as_i32(v) {
            Some(n) => Some(ConfigView { padding: n, ..c }),
            None => None,
        },
        Scalar::UseBorder => match as_bool(v) {
            Some(b) => Some(ConfigView { use_border: b, ..c }),
            None => None,
        },
        Scalar::LightTheme => match as_bool(v) {
            Some(b) => Some(ConfigView { light_theme: b, ..c }),
            None => None,
        },
        Scalar::LaunchOnStartup => match as_bool(v) {
            Some(b) => Some(ConfigView { launch_on_startup: b, ..c }),
            None => None,
        },
        Scalar::WorkMode => match as_bool(v) {
            Some(b) => Some(ConfigView { work_mode: b, ..c }),
            None => None,
        },
        Scalar::MultiMonitor => match as_bool(v) {
            Some(b) => Some(ConfigView { multi_monitor: b, ..c }),
            None => None,
        },
        Scalar::RemoveTitleBar => match as_bool(v) {
            Some(b) => Some(ConfigView { remove_title_bar: b, ..c }),
            None => None,
        },
        Scalar::RemoveTaskBar => match as_bool(v) {
            Some(b) => Some(ConfigView { remove_task_bar: b, ..c }),
            None => None,
        },
        Scalar::DisplayAppBar => match as_bool(v) {
            Some(b) => Some(ConfigView { display_app_bar: b, ..c }),
            None => None,
        },
    }
}

impl Scalar {
    pub fn from_name(name: &str) -> (r: Option<Scalar>)
        ensures
            r == scalar_named(name@),
    {
        if same_text(name, "app_bar_font") {
            Some(Scalar::AppBarFont)
        } else if same_text(name, "app_bar_date_pattern") {
            Some(Scalar::AppBarDatePattern)
        } else if same_text(name, "app_bar_time_pattern") {
            Some(Scalar::AppBarTimePattern)
        } else if same_text(name, "app_bar_bg") {
            Some(Scalar::AppBarBg)
        } else if same_text(name, "app_bar_font_size") {
            Some(Scalar::AppBarFontSize)
        } else if same_text(name, "app_bar_height") {
            Some(Scalar::AppBarHeight)
        } else if same_text(name, "min_width") {
            Some(Scalar::MinWidth)
        } else if same_text(name, "min_height") {
            Some(Scalar::MinHeight)
        } else if same_text(name, "margin") {
            Some(Scalar::Margin)
        } else if same_text(name, "padding") {
            Some(Scalar::Padding)
        } else if same_text(name, "use_border") {
            Some(Scalar::UseBorder)
        } else if same_text(name, "light_theme") {
            Some(Scalar::LightTheme)
        } else if same_text(name, "launch_on_startup") {
            Some(Scalar::LaunchOnStartup)
        } else if same_text(name, "work_mode") {
            Some(Scalar::WorkMode)
        } else if same_text(name, "multi_monitor") {
            Some(Scalar::MultiMonitor)
        } else if same_text(name, "remove_title_bar") {
            Some(Scalar::RemoveTitleBar)
        } else if same_text(name, "remove_task_bar") {
            Some(Scalar::RemoveTaskBar)
        } else if same_text(name, "display_app_bar") {
            Some(Scalar::DisplayAppBar)
        } else {
            None
        }
    }
}

fn set_scalar(c: &mut Config, f: Scalar, v: &Value) -> (ok: bool)
    ensures
        ok ==> with_scalar(old(c)@, f, *v) == Some(final(c)@),
        !ok ==> with_scalar(old(c)@, f, *v) is None,
{
    match f {
        Scalar::AppBarFont => match v.text() {
            Some(t) => {
                c.app_bar_font = t.clone();
                true
            },
            None => false,
        },
        Scalar::AppBarDatePattern => match v.text() {
            Some(t) => {
                c.app_bar_date_pattern = t.clone();
                true
            },
            None => false,
        },
        Scalar::AppBarTimePattern => match v.text() {
            Some(t) => {
                c.app_bar_time_pattern = t.clone();
                true
            },
            None => false,
        },
        Scalar::AppBarBg => match v.to_i32() {
            Some(n) => {
                c.app_bar_bg = n;
                true
            },
            None => false,
        },
        Scalar::AppBarFontSize => match v.to_i32() {
            Some(n) => {
                c.app_bar_font_size = n;
                true
            },
            None => false,
        },
        Scalar::AppBarHeight => match v.to_i32() {
            Some(n) => {
                c.app_bar_height = n;
                true
            },
            None => false,
        },
        Scalar::MinWidth => match v.to_i32() {
            Some(n) => {
                c.min_width = n;
                true
            },
            None => false,
        },
        Scalar::MinHeight => match v.to_i32() {
            Some(n) => {
                c.min_height = n;
                true
            },
            None => false,
        },
        Scalar::Margin => match v.to_i32() {
            Some(n) => {
                c.margin = n;
                true
            },
            None => false,
        },
        Scalar::Padding => match v.to_i32() {
            Some(n) => {
                c.padding = n;
                true
            },
            None => false,
        },
        Scalar::UseBorder => match v.to_bool() {
            Some(b) => {
                c.use_border = b;
                true
            },
            None => false,
        },
        Scalar::LightTheme => match v.to_bool() {
            Some(b) => {
                c.light_theme = b;
                true
            },
            None => false,
        },
        Scalar::LaunchOnStartup => match v.to_bool() {
            Some(b) => {
                c.launch_on_startup = b;
                true
            },
            None => false,
        },
        Scalar::WorkMode => match v.to_bool() {
            Some(b) => {
                c.work_mode = b;
                true
            },
            None => false,
        },
        Scalar::MultiMonitor => match v.to_bool() {
            Some(b) => {
                c.multi_monitor = b;
                true
            },
            None => false,
        },
        Scalar::RemoveTitleBar => match v.to_bool() {
            Some(b) => {
                c.remove_title_bar = b;
                true
            },
            None => false,
        },
        Scalar::RemoveTaskBar => match v.to_bool() {
            Some(b) => {
                c.remove_task_bar = b;
                true
            },
            None => false,
        },
        Scalar::DisplayAppBar => match v.to_bool() {
            Some(b) => {
                c.display_app_bar = b;
                true
            },
            None => false,
        },
    }
}

/// The workspace setting that an entry starts from.
pub open spec fn unset_workspace() -> WorkspaceSetting {
    WorkspaceSetting { id: -1i32, monitor: -1i32 }
}

/// A workspace entry's keys applied to `w` in order.
pub open spec fn workspace_entries(w: WorkspaceSetting, e: Seq<(Value, Value)>) -> Option<WorkspaceSetting>
    decreases e.len(),
{
    if e.len() == 0 {
        Some(w)
    } else {
        match as_text(e[0].0) {
            None => None,
            Some(k) => {
                let next = if k == "id"@ {
                    match as_i32(e[0].1) {
                        Some(n) => Some(WorkspaceSetting { id: n, ..w }),
                        None => None,
                    }
                } else if k == "monitor"@ {
                    match as_i32(e[0].1) {
                        Some(n) => Some(WorkspaceSetting { monitor: n, ..w }),
                        None => None,
                    }
                } else {
                    Some(w)
                };
                match next {
                    Some(w2) => workspace_entries(w2, e.drop_first()),
                    None => None,
                }
            },
        }
    }
}

/// `acc` extended with the workspace of each map item; other items are skipped.
pub open spec fn workspace_list(acc: Seq<WorkspaceSetting>, items: Seq<Value>) -> Option<
    Seq<WorkspaceSetting>,
>
    decreases items.len(),
{
    if items.len() == 0 {
        Some(acc)
    } else {
        match items[0] {
            Value::Hash(e) => match workspace_entries(unset_workspace(), e@) {
                Some(w) => workspace_list(acc.push(w), items.drop_first()),
                None => None,
            },
            _ => workspace_list(acc, items.drop_first()),
        }
    }
}

/// A rule entry's keys applied to `r` in order.
pub open spec fn rule_entries(r: RuleView, e: Seq<(Value, Value)>) -> Option<RuleView>
    decreases e.len(),
{
    if e.len() == 0 {
        Some(r)
    } else {
        match as_text(e[0].0) {
            None => None,
            Some(k) => {
                let v = e[0].1;
                let next = if k == "pattern"@ {
                    match as_text(v) {
                        Some(p) => if pattern_is_valid(p) {
                            Some(RuleView { pattern: p, ..r })
                        } else {
                            None
                        },
                        None => None,
                    }
                } else if k == "has_custom_titlebar"@ {
                    match as_bool(v) {
                        Some(b) => Some(RuleView { has_custom_titlebar: b, ..r }),
                        None => None,
                    }
                } else if k == "remove_frame"@ {
                    match as_bool(v) {
                        Some(b) => Some(RuleView { remove_frame: b, ..r }),
                        None => None,
                    }
                } else if k == "manage"@ {
                    match as_bool(v) {
                        Some(b) => Some(RuleView { manage: b, ..r }),
                        None => None,
                    }
                } else if k == "chromium"@ {
                    match as_bool(v) {
                        Some(b) => Some(RuleView { chromium: b, ..r }),
                        None => None,
                    }
                } else if k == "firefox"@ {
                    match as_bool(v) {
                        Some(b) => Some(RuleView { firefox: b, ..r }),
                        None => None,
                    }
                } else if k == "workspace"@ {
                    match as_i32(v) {
                        Some(n) => Some(RuleView { workspace: n, ..r }),
                        None => None,
                    }
                } else {
                    Some(r)
                };
                match next {
                    Some(r2) => rule_entries(r2, e.drop_first()),
                    None => None,
                }
            },
        }
    }
}

/// `acc` extended with the rule of each map item; other items are skipped.
pub open spec fn rule_list(acc: Seq<RuleView>, items: Seq<Value>) -> Option<Seq<RuleView>>
    decreases items.len(),
{
    if items.len() == 0 {
        Some(acc)
    } else {
        match items[0] {
            Value::Hash(e) => match rule_entries(default_rule_view(), e@) {
                Some(r) => rule_list(acc.push(r), items.drop_first()),
                None => None,
            },
            _ => rule_list(acc, items.drop_first()),
        }
    }
}

fn workspace_from(e: &Vec<(Value, Value)>) -> (r: Option<WorkspaceSetting>)
    ensures
        r == workspace_entries(unset_workspace(), e@),
{
    let mut w = WorkspaceSetting { id: -1, monitor: -1 };
    let mut i: usize = 0;
    proof {
        assert(e@.skip(0) =~= e@);
    }
    while i < e.len()
        invariant
            i <= e@.len(),
            workspace_entries(unset_workspace(), e@) == workspace_entries(
                w,
                e@.skip(i as int),
            ),
        decreases e@.len() - i,
    {
        proof {
            assert(e@.skip(i as int).drop_first() =~= e@.skip(i + 1));
            assert(e@.skip(i as int)[0] == e@[i as int]);
        }
        let key = match e[i].0.text() {
            Some(k) => k,
            None => {
                return None;
            },
        };
        let v = &e[i].1;
        if same_text(key.as_str(), "id") {
            match v.to_i32() {
                Some(n) => w.id = n,
                None => {
                    return None;
                },
            }
        } else if same_text(key.as_str(), "monitor") {
            match v.to_i32() {
                Some(n) => w.monitor = n,
                None => {
                    return None;
                },
            }
        }
        i = i + 1;
    }
    proof {
        assert(e@.skip(i as int).len() == 0);
    }
    Some(w)
}

fn rule_from(e: &Vec<(Value, Value)>) -> (r: Option<Rule>)
    ensures
        match r {
            Some(rule) => rule_entries(default_rule_view(), e@) == Some(rule@),
            None => rule_entries(default_rule_view(), e@) is None,
        },
{
    let mut rule = Rule::new();
    let mut i: usize = 0;
    proof {
        assert(e@.skip(0) =~= e@);
    }
    while i < e.len()
        invariant
            i <= e@.len(),
            rule_entries(default_rule_view(), e@) == rule_entries(rule@, e@.skip(i as int)),
        decreases e@.len() - i,
    {
        proof {
            assert(e@.skip(i as int).drop_first() =~= e@.skip(i + 1));
            assert(e@.skip(i as int)[0] == e@[i as int]);
        }
        let key = match e[i].0.text() {
            Some(k) => k,
            None => {
                return None;
            },
        };
        let key = key.as_str();
        let v = &e[i].1;
        if same_text(key, "pattern") {
            match v.text() {
                Some(p) => {
                    if !is_valid_pattern(p.as_str()) {
                        return None;
                    }
                    rule.pattern = p.clone();
                },
                None => {
                    return None;
                },
            }
        } else if same_text(key, "has_custom_titlebar") {
            match v.to_bool() {
                Some(b) => rule.has_custom_titlebar = b,
                None => {
                    return None;
                },
            }
        } else if same_text(key, "remove_frame") {
            match v.to_bool() {
                Some(b) => rule.remove_frame = b,
                None => {
                    return None;
                },
            }
        } else if same_text(key, "manage") {
            match v.to_bool() {
                Some(b) => rule.manage = b,
                None => {
                    return None;
                },
            }
        } else if same_text(key, "chromium") {
            match v.to_bool() {
                Some(b) => rule.chromium = b,
                None => {
                    return None;
                },
            }
        } else if same_text(key, "firefox") {
            match v.to_bool() {
                Some(b) => rule.firefox = b,
                None => {
                    return None;
                },
            }
        } else if same_text(key, "workspace") {
            match v.to_i32() {
                Some(n) => rule.workspace = n,
                None => {
                    return None;
                },
            }
        }
        i = i + 1;
    }
    proof {
        assert(e@.skip(i as int).len() == 0);
    }
    Some(rule)
}

fn load_workspaces(c: &mut Config, items: &Vec<Value>) -> (ok: bool)
    ensures
        ok ==> workspace_list(old(c)@.workspace_settings, items@) == Some(
            final(c)@.workspace_settings,
        ),
        ok ==> final(c)@ == (ConfigView { workspace_settings: final(c)@.workspace_settings, ..old(c)@ }),
        !ok ==> workspace_list(old(c)@.workspace_settings, items@) is None,
{
    let ghost c0 = c@;
    let mut i: usize = 0;
    proof {
        assert(items@.skip(0) =~= items@);
    }
    while i < items.len()
        invariant
            i <= items@.len(),
            workspace_list(c0.workspace_settings, items@) == workspace_list(
                c@.workspace_settings,
                items@.skip(i as int),
            ),
            c@ == (ConfigView { workspace_settings: c@.workspace_settings, ..c0 }),
            c0 == old(c)@,
        decreases items@.len() - i,
    {
        proof {
            assert(items@.skip(i as int).drop_first() =~= items@.skip(i + 1));
            assert(items@.skip(i as int)[0] == items@[i as int]);
        }
        if let Value::Hash(e) = &items[i] {
            match workspace_from(e) {
                Some(w) => c.workspace_settings.push(w),
                None => {
                    return false;
                },
            }
        }
        i = i + 1;
    }
    proof {
        assert(items@.skip(i as int).len() == 0);
    }
    true
}

fn load_rules(c: &mut Config, items: &Vec<Value>) -> (ok: bool)
    ensures
        ok ==> rule_list(old(c)@.rules, items@) == Some(final(c)@.rules),
        ok ==> final(c)@ == (ConfigView { rules: final(c)@.rules, ..old(c)@ }),
        !ok ==> rule_list(old(c)@.rules, items@) is None,
{
    let ghost c0 = c@;
    let mut i: usize = 0;
    proof {
        assert(items@.skip(0) =~= items@);
    }
    while i < items.len()
        invariant
            i <= items@.len(),
            rule_list(c0.rules, items@) == rule_list(c@.rules, items@.skip(i as int)),
            c@ == (ConfigView { rules: c@.rules, ..c0 }),
            c0 == old(c)@,
        decreases items@.len() - i,
    {
        proof {
            assert(items@.skip(i as int).drop_first() =~= items@.skip(i + 1));
            assert(items@.skip(i as int)[0] == items@[i as int]);
        }
        if let Value::Hash(e) = &items[i] {
            match rule_from(e) {
                Some(rule) => {
                    let ghost before = c.rules@;
                    c.rules.push(rule);
                    proof {
                        assert(c.rules@.map_values(|r: Rule| r@) =~= before.map_values(
                            |r: Rule| r@,
                        ).push(rule@));
                    }
                },
                None => {
                    return false;
                },
            }
        }
        i = i + 1;
    }
    proof {
        assert(items@.skip(i as int).len() == 0);
    }
    true
}

/// The text under key `name` of a binding.
pub open spec fn text_field(b: Value, name: Seq<char>) -> Option<Seq<char>> {
    match field(b, name) {
        Some(v) => as_text(v),
        None => None,
    }
}

/// The 32-bit integer under key `name` of a binding.
pub open spec fn i32_field(b: Value, name: Seq<char>) -> Option<i32> {
    match field(b, name) {
        Some(v) => as_i32(v),
        None => None,
    }
}

/// The direction named under key `direction` of a binding.
pub open spec fn direction_field(b: Value) -> Option<Direction> {
    match text_field(b, "direction"@) {
        Some(t) => direction_named(t),
        None => None,
    }
}

/// A found action, or a missing or malformed field.
pub open spec fn found(a: Option<ActionView>) -> Option<Option<ActionView>> {
    match a {
        Some(x) => Some(Some(x)),
        None => None,
    }
}

/// The action of a binding of type `t`: nothing when a field it needs is
/// missing or malformed, the absence of an action for an unknown type.
pub open spec fn action_of(b: Value, t: Seq<char>) -> Option<Option<ActionView>> {
    if t == "Launch"@ {
        found(
            match text_field(b, "cmd"@) {
                Some(c) => Some(ActionView::Launch(c)),
                None => None,
            },
        )
    } else if t == "CloseTile"@ {
        Some(Some(ActionView::CloseTile))
    } else if t == "Quit"@ {
        Some(Some(ActionView::Quit))
    } else if t == "ChangeWorkspace"@ {
        found(
            match i32_field(b, "id"@) {
                Some(n) => Some(ActionView::ChangeWorkspace(n)),
                None => None,
            },
        )
    } else if t == "MoveToWorkspace"@ {
        found(
            match i32_field(b, "id"@) {
                Some(n) => Some(ActionView::MoveToWorkspace(n)),
                None => None,
            },
        )
    } else if t == "MoveWorkspaceToMonitor"@ {
        found(
            match i32_field(b, "monitor"@) {
                Some(n) => Some(ActionView::MoveWorkspaceToMonitor(n)),
                None => None,
            },
        )
    } else if t == "ToggleFloatingMode"@ {
        Some(Some(ActionView::ToggleFloatingMode))
    } else if t == "ToggleFullscreen"@ {
        Some(Some(ActionView::ToggleFullscreen))
    } else if t == "ToggleWorkMode"@ {
        Some(Some(ActionView::ToggleWorkMode))
    } else if t == "IncrementConfig"@ {
        found(
            match (text_field(b, "field"@), i32_field(b, "value"@)) {
                (Some(f), Some(n)) => Some(ActionView::IncrementConfig(f, n)),
                _ => None,
            },
        )
    } else if t == "DecrementConfig"@ {
        found(
            match (text_field(b, "field"@), i32_field(b, "value"@)) {
                (Some(f), Some(n)) => Some(ActionView::DecrementConfig(f, n)),
                _ => None,
            },
        )
    } else if t == "ToggleConfig"@ {
        found(
            match text_field(b, "field"@) {
                Some(f) => Some(ActionView::ToggleConfig(f)),
                None => None,
            },
        )
    } else if t == "Focus"@ {
        found(
            match direction_field(b) {
                Some(d) => Some(ActionView::Focus(d)),
                None => None,
            },
        )
    } else if t == "Resize"@ {
        found(
            match (direction_field(b), i32_field(b, "amount"@)) {
                (Some(d), Some(n)) => Some(ActionView::Resize(d, n)),
                _ => None,
            },
        )
    } else if t == "Swap"@ {
        found(
            match direction_field(b) {
                Some(d) => Some(ActionView::Swap(d)),
                None => None,
            },
        )
    } else if t == "Split"@ {
        found(
            match text_field(b, "direction"@) {
                Some(s) => match split_direction_named(s) {
                    Some(d) => Some(ActionView::Split(d)),
                    None => None,
                },
                None => None,
            },
        )
    } else {
        Some(None)
    }
}

/// A binding entry: nothing when it is malformed, the absence of a binding
/// when its type is unknown.
pub open spec fn binding_of(b: Value) -> Option<Option<KeybindingView>> {
    match text_field(b, "type"@) {
        None => None,
        Some(t) => match text_field(b, "key"@) {
            None => None,
            Some(k) => match action_of(b, t) {
                None => None,
                Some(None) => Some(None),
                Some(Some(a)) => Some(Some(KeybindingView { key: k, typ: a })),
            },
        },
    }
}

/// `acc` extended with the binding of each item whose type is known.
pub open spec fn binding_list(acc: Seq<KeybindingView>, items: Seq<Value>) -> Option<
    Seq<KeybindingView>,
>
    decreases items.len(),
{
    if items.len() == 0 {
        Some(acc)
    } else {
        match binding_of(items[0]) {
            None => None,
            Some(None) => binding_list(acc, items.drop_first()),
            Some(Some(k)) => binding_list(acc.push(k), items.drop_first()),
        }
    }
}

fn text_of<'a>(b: &'a Value, name: &str) -> (r: Option<&'a String>)
    ensures
        match r {
            Some(s) => text_field(*b, name@) == Some(s@),
            None => text_field(*b, name@) is None,
        },
{
    match b.get(name) {
        Some(v) => v.text(),
        None => None,
    }
}

fn i32_of(b: &Value, name: &str) -> (r: Option<i32>)
    ensures
        r == i32_field(*b, name@),
{
    match b.get(name) {
        Some(v) => v.to_i32(),
        None => None,
    }
}

fn direction_of(b: &Value) -> (r: Option<Direction>)
    ensures
        r == direction_field(*b),
{
    match text_of(b, "direction") {
        Some(t) => Direction::parse(t.as_str()),
        None => None,
    }
}

/// The action of a binding of type `t`.
fn action_from(b: &Value, t: &str) -> (r: Result<Option<KeybindingType>, ()>)
    ensures
        match r {
            Ok(Some(a)) => action_of(*b, t@) == Some(Some(a@)),
            Ok(None) => action_of(*b, t@) == Some(None::<ActionView>),
            Err(_) => action_of(*b, t@) is None,
        },
{
    if same_text(t, "Launch") {
        match text_of(b, "cmd") {
            Some(c) => Ok(Some(KeybindingType::Launch(c.clone()))),
            None => Err(()),
        }
    } else if same_text(t, "CloseTile") {
        Ok(Some(KeybindingType::CloseTile))
    } else if same_text(t, "Quit") {
        Ok(Some(KeybindingType::Quit))
    } else if same_text(t, "ChangeWorkspace") {
        match i32_of(b, "id") {
            Some(n) => Ok(Some(KeybindingType::ChangeWorkspace(n))),
            None => Err(()),
        }
    } else if same_text(t, "MoveToWorkspace") {
        match i32_of(b, "id") {
            Some(n) => Ok(Some(KeybindingType::MoveToWorkspace(n))),
            None => Err(()),
        }
    } else if same_text(t, "MoveWorkspaceToMonitor") {
        match i32_of(b, "monitor") {
            Some(n) => Ok(Some(KeybindingType::MoveWorkspaceToMonitor(n))),
            None => Err(()),
        }
    } else if same_text(t, "ToggleFloatingMode") {
        Ok(Some(KeybindingType::ToggleFloatingMode))
    } else if same_text(t, "ToggleFullscreen") {
        Ok(Some(KeybindingType::ToggleFullscreen))
    } else if same_text(t, "ToggleWorkMode") {
        Ok(Some(KeybindingType::ToggleWorkMode))
    } else if same_text(t, "IncrementConfig") {
        match (text_of(b, "field"), i32_of(b, "value")) {
            (Some(f), Some(n)) => Ok(Some(KeybindingType::IncrementConfig(f.clone(), n))),
            _ => Err(()),
        }
    } else if same_text(t, "DecrementConfig") {
        match (text_of(b, "field"), i32_of(b, "value")) {
            (Some(f), Some(n)) => Ok(Some(KeybindingType::DecrementConfig(f.clone(), n))),
            _ => Err(()),
        }
    } else if same_text(t, "ToggleConfig") {
        match text_of(b, "field") {
            Some(f) => Ok(Some(KeybindingType::ToggleConfig(f.clone()))),
            None => Err(()),
        }
    } else if same_text(t, "Focus") {
        match direction_of(b) {
            Some(d) => Ok(Some(KeybindingType::Focus(d))),
            None => Err(()),
        }
    } else if same_text(t, "Resize") {
        match (direction_of(b), i32_of(b, "amount")) {
            (Some(d), Some(n)) => Ok(Some(KeybindingType::Resize(d, n))),
            _ => Err(()),
        }
    } else if same_text(t, "Swap") {
        match direction_of(b) {
            Some(d) => Ok(Some(KeybindingType::Swap(d))),
            None => Err(()),
        }
    } else if same_text(t, "Split") {
        match text_of(b, "direction") {
            Some(s) => match SplitDirection::parse(s.as_str()) {
                Some(d) => Ok(Some(KeybindingType::Split(d))),
                None => Err(()),
            },
            None => Err(()),
        }
    } else {
        Ok(None)
    }
}

/// The binding an entry describes; none when its type is unknown.
fn binding_from(b: &Value) -> (r: Result<Option<Keybinding>, ()>)
    ensures
        match r {
            Ok(Some(k)) => binding_of(*b) == Some(Some(k@)),
            Ok(None) => binding_of(*b) == Some(None::<KeybindingView>),
            Err(_) => binding_of(*b) is None,
        },
{
    let t = match text_of(b, "type") {
        Some(t) => t,
        None => {
            return Err(());
        },
    };
    let key = match text_of(b, "key") {
        Some(k) => k,
        None => {
            return Err(());
        },
    };
    match action_from(b, t.as_str()) {
        Ok(Some(typ)) => Ok(Some(Keybinding { key: key.clone(), typ })),
        Ok(None) => Ok(None),
        Err(_) => Err(()),
    }
}

fn load_bindings(c: &mut Config, items: &Vec<Value>) -> (ok: bool)
    ensures
        ok ==> binding_list(old(c)@.keybindings, items@) == Some(final(c)@.keybindings),
        ok ==> final(c)@ == (ConfigView { keybindings: final(c)@.keybindings, ..old(c)@ }),
        !ok ==> binding_list(old(c)@.keybindings, items@) is None,
{
    let ghost c0 = c@;
    let mut i: usize = 0;
    proof {
        assert(items@.skip(0) =~= items@);
    }
    while i < items.len()
        invariant
            i <= items@.len(),
            binding_list(c0.keybindings, items@) == binding_list(
                c@.keybindings,
                items@.skip(i as int),
            ),
            c@ == (ConfigView { keybindings: c@.keybindings, ..c0 }),
            c0 == old(c)@,
        decreases items@.len() - i,
    {
        proof {
            assert(items@.skip(i as int).drop_first() =~= items@.skip(i + 1));
            assert(items@.skip(i as int)[0] == items@[i as int]);
        }
        match binding_from(&items[i]) {
            Ok(Some(kb)) => {
                let ghost before = c.keybindings@;
                c.keybindings.push(kb);
                proof {
                    assert(c.keybindings@.map_values(|k: Keybinding| k@) =~= before.map_values(
                        |k: Keybinding| k@,
                    ).push(kb@));
                }
            },
            Ok(None) => {},
            Err(_) => {
                return false;
            },
        }
        i = i + 1;
    }
    proof {
        assert(items@.skip(i as int).len() == 0);
    }
    true
}

/// One top-level entry applied to `c`: a scalar setting, one of the three
/// lists, or an unknown key that changes nothing.
pub open spec fn config_entry(c: ConfigView, k: Value, v: Value) -> Option<ConfigView> {
    match as_text(k) {
        None => None,
        Some(name) => match scalar_named(name) {
            Some(f) => with_scalar(c, f, v),
            None => if name == "workspaces"@ {
                match v {
                    Value::List(items) => match workspace_list(c.workspace_settings, items@) {
                        Some(ws) => Some(ConfigView { workspace_settings: ws, ..c }),
                        None => None,
                    },
                    _ => None,
                }
            } else if name == "rules"@ {
                match v {
                    Value::List(items) => match rule_list(c.rules, items@) {
                        Some(rs) => Some(ConfigView { rules: rs, ..c }),
                        None => None,
                    },
                    _ => None,
                }
            } else if name == "keybindings"@ {
                match v {
                    Value::List(items) => match binding_list(c.keybindings, items@) {
                        Some(ks) => Some(ConfigView { keybindings: ks, ..c }),
                        None => None,
                    },
                    _ => None,
                }
            } else {
                Some(c)
            },
        },
    }
}

/// The top-level entries applied to `c` in document order.
pub open spec fn config_entries(c: ConfigView, e: Seq<(Value, Value)>) -> Option<ConfigView>
    decreases e.len(),
{
    if e.len() == 0 {
        Some(c)
    } else {
        match config_entry(c, e[0].0, e[0].1) {
            Some(c2) => config_entries(c2, e.drop_first()),
            None => None,
        }
    }
}

/// A color written as 0xRRGGBB in the platform's 0x00BBGGRR layout: the red
/// and blue bytes trade places and the top byte is dropped.
pub open spec fn platform_color(c: i32) -> i32 {
    let u = (c as u32) as int;
    let red = (u / 65536) % 256;
    let green = (u / 256) % 256;
    let blue = u % 256;
    (red + green * 256 + blue * 65536) as i32
}

/// The configuration a list of documents describes: the first document, when
/// it is a map, over the defaults; the defaults otherwise.
pub open spec fn loaded(docs: Seq<Value>) -> Option<ConfigView> {
    if docs.len() > 0 {
        match docs[0] {
            Value::Hash(e) => match config_entries(default_config_view(), e@) {
                Some(c) => Some(ConfigView { app_bar_bg: platform_color(c.app_bar_bg), ..c }),
                None => None,
            },
            _ => Some(default_config_view()),
        }
    } else {
        Some(default_config_view())
    }
}

/// Converts a 0xRRGGBB color to the platform's 0x00BBGGRR layout.
pub fn to_platform_color(c: i32) -> (r: i32)
    ensures
        r == platform_color(c),
{
    let u = c as u32;
    let red = (u / 65536) % 256;
    let green = (u / 256) % 256;
    let blue = u % 256;
    assert(green * 256 <= 255 * 256) by (nonlinear_arith)
        requires
            green < 256,
    ;
    assert(blue * 65536 <= 255 * 65536) by (nonlinear_arith)
        requires
            blue < 256,
    ;
    (red + green * 256 + blue * 65536) as i32
}

fn apply_entry(c: &mut Config, k: &Value, v: &Value) -> (r: Result<(), ConfigError>)
    ensures
        r is Ok ==> config_entry(old(c)@, *k, *v) == Some(final(c)@),
        r is Err ==> config_entry(old(c)@, *k, *v) is None,
{
    let name = match k.text() {
        Some(n) => n.as_str(),
        None => {
            return Err(ConfigError::Invalid("Invalid config key".to_owned()));
        },
    };
    match Scalar::from_name(name) {
        Some(f) => {
            if set_scalar(c, f, v) {
                Ok(())
            } else {
                Err(ConfigError::Invalid("a setting has a value of the wrong kind".to_owned()))
            }
        },
        None => {
            if same_text(name, "workspaces") {
                match v {
                    Value::List(items) => if load_workspaces(c, items) {
                        Ok(())
                    } else {
                        Err(ConfigError::Invalid("malformed workspace entry".to_owned()))
                    },
                    _ => Err(ConfigError::Invalid("workspaces has to be an array".to_owned())),
                }
            } else if same_text(name, "rules") {
                match v {
                    Value::List(items) => if load_rules(c, items) {
                        Ok(())
                    } else {
                        Err(ConfigError::Invalid("malformed rule entry".to_owned()))
                    },
                    _ => Err(ConfigError::Invalid("rules has to be an array".to_owned())),
                }
            } else if same_text(name, "keybindings") {
                match v {
                    Value::List(items) => if load_bindings(c, items) {
                        Ok(())
                    } else {
                        Err(ConfigError::Invalid("malformed keybinding entry".to_owned()))
                    },
                    _ => Err(ConfigError::Invalid("keybindings has to be an array".to_owned())),
                }
            } else {
                Ok(())
            }
        },
    }
}

/// Builds the configuration that the parsed documents of a configuration
/// file describe. Only the first document counts; one that is not a map
/// leaves the defaults. Any malformed entry rejects the whole configuration.
pub fn load(documents: &Vec<Value>) -> (r: Result<Config, ConfigError>)
    ensures
        match r {
            Ok(c) => loaded(documents@) == Some(c@),
            Err(_) => loaded(documents@) is None,
        },
{
    let mut config = Config::new();
    if documents.len() > 0 {
        if let Value::Hash(entries) = &documents[0] {
            let mut i: usize = 0;
            proof {
                assert(entries@.skip(0) =~= entries@);
            }
            while i < entries.len()
                invariant
                    i <= entries@.len(),
                    documents@.len() > 0,
                    documents@[0] == Value::Hash(*entries),
                    config_entries(default_config_view(), entries@) == config_entries(
                        config@,
                        entries@.skip(i as int),
                    ),
                decreases entries@.len() - i,
            {
                proof {
                    assert(entries@.skip(i as int).drop_first() =~= entries@.skip(i + 1));
                    assert(entries@.skip(i as int)[0] == entries@[i as int]);
                }
                match apply_entry(&mut config, &entries[i].0, &entries[i].1) {
                    Ok(()) => {},
                    Err(e) => {
                        return Err(e);
                    },
                }
                i = i + 1;
            }
            proof {
                assert(entries@.skip(i as int).len() == 0);
            }
            config.app_bar_bg = to_platform_color(config.app_bar_bg);
        }
    }
    Ok(config)
}

/// The binding types that a configuration document can name.
pub open spec fn known_binding_type(t: Seq<char>) -> bool {
    t == "Launch"@ || t == "CloseTile"@ || t == "Quit"@ || t == "ChangeWorkspace"@ || t
        == "MoveToWorkspace"@ || t == "MoveWorkspaceToMonitor"@ || t == "ToggleFloatingMode"@ || t
        == "ToggleFullscreen"@ || t == "ToggleWorkMode"@ || t == "IncrementConfig"@ || t
        == "DecrementConfig"@ || t == "ToggleConfig"@ || t == "Focus"@ || t == "Resize"@ || t
        == "Swap"@ || t == "Split"@
}

/// A binding entry with a key and a type that names no action neither fails
/// the load nor adds a binding: the list reads as if the entry were absent.
pub proof fn lemma_unknown_binding_type_dropped(
    acc: Seq<KeybindingView>,
    b: Value,
    rest: Seq<Value>,
)
    requires
        text_field(b, "type"@) is Some,
        !known_binding_type(text_field(b, "type"@)->0),
        text_field(b, "key"@) is Some,
    ensures
        binding_list(acc, seq![b] + rest) == binding_list(acc, rest),
{
    let items = seq![b] + rest;
    assert(items[0] == b);
    assert(items.drop_first() =~= rest);
}

} // verus!
