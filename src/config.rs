//! Process-wide settings: tunables, workspace assignments, rules and hotkeys,
//! with name-keyed mutation restricted to a fixed set of fields.
use vstd::prelude::*;
use crate::keybinding::{Keybinding, KeybindingView};
use crate::rule::{Rule, RuleView};
use crate::text::same_text;

verus! {

/// Pairs a workspace with a monitor; -1 leaves either unset.
#[derive(Clone, Copy, Debug, PartialEq, Eq, Structural)]
pub struct WorkspaceSetting {
    pub id: i32,
    pub monitor: i32,
}

impl Default for WorkspaceSetting {
    fn default() -> (r: WorkspaceSetting)
        ensures
            r.id == -1,
            r.monitor == -1,
    {
        WorkspaceSetting { id: -1, monitor: -1 }
    }
}

/// Why a configuration could not be loaded or changed.
#[derive(Debug, PartialEq, Eq)]
pub enum ConfigError {
    /// A field name outside the allow-list of the operation.
    UnknownField(String),
    /// A value of the wrong kind, or a required entry that is missing.
    Invalid(String),
}

pub struct Config {
    pub app_bar_height: i32,
    pub app_bar_bg: i32,
    pub app_bar_font: String,
    pub app_bar_date_pattern: String,
    pub app_bar_time_pattern: String,
    pub use_border: bool,
    pub app_bar_font_size: i32,
    pub min_width: i32,
    pub min_height: i32,
    pub work_mode: bool,
    pub light_theme: bool,
    pub multi_monitor: bool,
    pub launch_on_startup: bool,
    pub margin: i32,
    pub padding: i32,
    pub remove_title_bar: bool,
    pub remove_task_bar: bool,
    pub display_app_bar: bool,
    pub workspace_settings: Vec<WorkspaceSetting>,
    pub keybindings: Vec<Keybinding>,
    pub rules: Vec<Rule>,
}

/// A configuration with its texts as characters and its lists as sequences.
pub struct ConfigView {
    pub app_bar_height: i32,
    pub app_bar_bg: i32,
    pub app_bar_font: Seq<char>,
    pub app_bar_date_pattern: Seq<char>,
    pub app_bar_time_pattern: Seq<char>,
    pub use_border: bool,
    pub app_bar_font_size: i32,
    pub min_width: i32,
    pub min_height: i32,
    pub work_mode: bool,
    pub light_theme: bool,
    pub multi_monitor: bool,
    pub launch_on_startup: bool,
    pub margin: i32,
    pub padding: i32,
    pub remove_title_bar: bool,
    pub remove_task_bar: bool,
    pub display_app_bar: bool,
    pub workspace_settings: Seq<WorkspaceSetting>,
    pub keybindings: Seq<KeybindingView>,
    pub rules: Seq<RuleView>,
}

impl View for Config {
    type V = ConfigView;

    open spec fn view(&self) -> ConfigView {
        ConfigView {
            app_bar_height: self.app_bar_height,
            app_bar_bg: self.app_bar_bg,
            app_bar_font: self.app_bar_font@,
            app_bar_date_pattern: self.app_bar_date_pattern@,
            app_bar_time_pattern: self.app_bar_time_pattern@,
            use_border: self.use_border,
            app_bar_font_size: self.app_bar_font_size,
            min_width: self.min_width,
            min_height: self.min_height,
            work_mode: self.work_mode,
            light_theme: self.light_theme,
            multi_monitor: self.multi_monitor,
            launch_on_startup: self.launch_on_startup,
            margin: self.margin,
            padding: self.padding,
            remove_title_bar: self.remove_title_bar,
            remove_task_bar: self.remove_task_bar,
            display_app_bar: self.display_app_bar,
            workspace_settings: self.workspace_settings@,
            keybindings: self.keybindings@.map_values(|k: Keybinding| k@),
            rules: self.rules@.map_values(|r: Rule| r@),
        }
    }
}

/// The settings a fresh installation starts with.
pub open spec fn default_config_view() -> ConfigView {
    ConfigView {
        app_bar_height: 20,
        app_bar_bg: 0x2e3440,
        app_bar_font: "Consolas"@,
        app_bar_date_pattern: "%e %b %Y"@,
        app_bar_time_pattern: "%T"@,
        use_border: false,
        app_bar_font_size: 18,
        min_width: 0,
        min_height: 0,
        work_mode: true,
        light_theme: false,
        multi_monitor: false,
        launch_on_startup: false,
        margin: 0,
        padding: 0,
        remove_title_bar: false,
        remove_task_bar: false,
        display_app_bar: false,
        workspace_settings: Seq::empty(),
        keybindings: Seq::empty(),
        rules: Seq::empty(),
    }
}

impl Default for Config {
    fn default() -> (r: Config)
        ensures
            r@ == default_config_view(),
    {
        Config::new()
    }
}

/// The numeric fields that can be changed by name.
#[derive(Clone, Copy, Debug, PartialEq, Eq, Structural)]
pub enum NumericField {
    AppBarHeight,
    AppBarBg,
    AppBarFontSize,
    Margin,
    Padding,
}

/// The boolean fields that can be toggled by name.
#[derive(Clone, Copy, Debug, PartialEq, Eq, Structural)]
pub enum ToggleField {
    UseBorder,
    LightTheme,
    LaunchOnStartup,
    RemoveTitleBar,
    RemoveTaskBar,
    DisplayAppBar,
}

pub open spec fn numeric_field_named(name: Seq<char>) -> Option<NumericField> {
    if name == "app_bar_height"@ {
        Some(NumericField::AppBarHeight)
    } else if name == "app_bar_bg"@ {
        Some(NumericField::AppBarBg)
    } else if name == "app_bar_font_size"@ {
        Some(NumericField::AppBarFontSize)
    } else if name == "margin"@ {
        Some(NumericField::Margin)
    } else if name == "padding"@ {
        Some(NumericField::Padding)
    } else {
        None
    }
}

pub open spec fn toggle_field_named(name: Seq<char>) -> Option<ToggleField> {
    if name == "use_border"@ {
        Some(ToggleField::UseBorder)
    } else if name == "light_theme"@ {
        Some(ToggleField::LightTheme)
    } else if name == "launch_on_startup"@ {
        Some(ToggleField::LaunchOnStartup)
    } else if name == "remove_title_bar"@ {
        Some(ToggleField::RemoveTitleBar)
    } else if name == "remove_task_bar"@ {
        Some(ToggleField::RemoveTaskBar)
    } else if name == "display_app_bar"@ {
        Some(ToggleField::DisplayAppBar)
    } else {
        None
    }
}

impl NumericField {
    pub fn from_name(name: &str) -> (r: Option<NumericField>)
        ensures
            r == numeric_field_named(name@),
    {
        if same_text(name, "app_bar_height") {
            Some(NumericField::AppBarHeight)
        } else if same_text(name, "app_bar_bg") {
            Some(NumericField::AppBarBg)
        } else if same_text(name, "app_bar_font_size") {
            Some(NumericField::AppBarFontSize)
        } else if same_text(name, "margin") {
            Some(NumericField::Margin)
        } else if same_text(name, "padding") {
            Some(NumericField::Padding)
        } else {
            None
        }
    }
}

impl ToggleField {
    pub fn from_name(name: &str) -> (r: Option<ToggleField>)
        ensures
            r == toggle_field_named(name@),
    {
        if same_text(name, "use_border") {
            Some(ToggleField::UseBorder)
        } else if same_text(name, "light_theme") {
            Some(ToggleField::LightTheme)
        } else if same_text(name, "launch_on_startup") {
            Some(ToggleField::LaunchOnStartup)
        } else if same_text(name, "remove_title_bar") {
            Some(ToggleField::RemoveTitleBar)
        } else if same_text(name, "remove_task_bar") {
            Some(ToggleField::RemoveTaskBar)
        } else if same_text(name, "display_app_bar") {
            Some(ToggleField::DisplayAppBar)
        } else {
            None
        }
    }
}

impl Config {
    /// The value of a numeric field.
    pub open spec fn numeric(&self, f: NumericField) -> i32 {
        match f {
            NumericField::AppBarHeight => self.app_bar_height,
            NumericField::AppBarBg => self.app_bar_bg,
            NumericField::AppBarFontSize => self.app_bar_font_size,
            NumericField::Margin => self.margin,
            NumericField::Padding => self.padding,
        }
    }

    /// The value of a toggleable field.
    pub open spec fn flag(&self, f: ToggleField) -> bool {
        match f {
            ToggleField::UseBorder => self.use_border,
            ToggleField::LightTheme => self.light_theme,
            ToggleField::LaunchOnStartup => self.launch_on_startup,
            ToggleField::RemoveTitleBar => self.remove_title_bar,
            ToggleField::RemoveTaskBar => self.remove_task_bar,
            ToggleField::DisplayAppBar => self.display_app_bar,
        }
    }

    /// `self` and `other` agree on every field but the numeric field `f`.
    pub open spec fn same_except_numeric(&self, other: &Config, f: Option<NumericField>) -> bool {
        &&& forall|g: NumericField| Some(g) != f ==> self.numeric(g) == other.numeric(g)
        &&& forall|g: ToggleField| self.flag(g) == other.flag(g)
        &&& self.same_other_fields(other)
    }

    /// `self` and `other` agree on every field but the toggleable field `f`.
    pub open spec fn same_except_flag(&self, other: &Config, f: Option<ToggleField>) -> bool {
        &&& forall|g: NumericField| self.numeric(g) == other.numeric(g)
        &&& forall|g: ToggleField| Some(g) != f ==> self.flag(g) == other.flag(g)
        &&& self.same_other_fields(other)
    }

    /// Agreement on the fields that no name-keyed operation reaches.
    pub open spec fn same_other_fields(&self, other: &Config) -> bool {
        &&& self.app_bar_font@ == other.app_bar_font@
        &&& self.app_bar_date_pattern@ == other.app_bar_date_pattern@
        &&& self.app_bar_time_pattern@ == other.app_bar_time_pattern@
        &&& self.min_width == other.min_width
        &&& self.min_height == other.min_height
        &&& self.work_mode == other.work_mode
        &&& self.multi_monitor == other.multi_monitor
        &&& self.workspace_settings@ == other.workspace_settings@
        &&& self.keybindings@ == other.keybindings@
        &&& self.rules@ == other.rules@
    }

    /// Adding `value` to the field named `field` stays within 32 bits.
    pub open spec fn change_fits(&self, field: Seq<char>, value: int) -> bool {
        match numeric_field_named(field) {
            Some(f) => i32::MIN <= self.numeric(f) + value <= i32::MAX,
            None => true,
        }
    }

    /// The settings a fresh installation starts with.
    pub fn new() -> (r: Config)
        ensures
            r.app_bar_height == 20,
            r.app_bar_bg == 0x2e3440,
            r.app_bar_font@ == "Consolas"@,
            r.app_bar_font_size == 18,
            r.app_bar_date_pattern@ == "%e %b %Y"@,
            r.app_bar_time_pattern@ == "%T"@,
            !r.launch_on_startup,
            r.min_height == 0,
            r.min_width == 0,
            !r.use_border,
            r.margin == 0,
            r.padding == 0,
            !r.remove_title_bar,
            r.work_mode,
            !r.light_theme,
            !r.multi_monitor,
            !r.remove_task_bar,
            !r.display_app_bar,
            r.workspace_settings@.len() == 0,
            r.keybindings@.len() == 0,
            r.rules@.len() == 0,
            r@ == default_config_view(),
    {
        let c = Config {
            app_bar_height: 20,
            app_bar_bg: 0x2e3440,
            app_bar_font: "Consolas".to_owned(),
            app_bar_font_size: 18,
            app_bar_date_pattern: "%e %b %Y".to_owned(),
            app_bar_time_pattern: "%T".to_owned(),
            launch_on_startup: false,
            min_height: 0,
            min_width: 0,
            use_border: false,
            margin: 0,
            padding: 0,
            remove_title_bar: false,
            work_mode: true,
            light_theme: false,
            multi_monitor: false,
            remove_task_bar: false,
            display_app_bar: false,
            workspace_settings: Vec::new(),
            keybindings: Vec::new(),
            rules: Vec::new(),
        };
        proof {
            assert(c.keybindings@.map_values(|k: Keybinding| k@) =~= Seq::empty());
            assert(c.rules@.map_values(|r: Rule| r@) =~= Seq::empty());
        }
        c
    }

    /// Whether adding `value` to the field named `field` stays within 32 bits.
    pub fn can_change(&self, field: &str, value: i32) -> (r: bool)
        ensures
            r == self.change_fits(field@, value as int),
    {
        match NumericField::from_name(field) {
            Some(f) => {
                let cur = self.get_numeric(f) as i64;
                let sum = cur + value as i64;
                i32::MIN as i64 <= sum && sum <= i32::MAX as i64
            },
            None => true,
        }
    }

    pub fn get_numeric(&self, f: NumericField) -> (r: i32)
        ensures
            r == self.numeric(f),
    {
        match f {
            NumericField::AppBarHeight => self.app_bar_height,
            NumericField::AppBarBg => self.app_bar_bg,
            NumericField::AppBarFontSize => self.app_bar_font_size,
            NumericField::Margin => self.margin,
            NumericField::Padding => self.padding,
        }
    }

    /// Adds `value` to the numeric field named `field`. A name outside the
    /// allow-list changes nothing and is reported as `UnknownField`.
    pub fn increment_field(&mut self, field: &str, value: i32) -> (r: Result<(), ConfigError>)
        requires
            old(self).change_fits(field@, value as int),
        ensures
            Self::numeric_change(old(self), final(self), field@, value as int, r),
    {
        self.alter_numerical_field(field, value)
    }

    /// Subtracts `value` from the numeric field named `field`. A name outside
    /// the allow-list changes nothing and is reported as `UnknownField`.
    pub fn decrement_field(&mut self, field: &str, value: i32) -> (r: Result<(), ConfigError>)
        requires
            value != i32::MIN,
            old(self).change_fits(field@, -value),
        ensures
            Self::numeric_change(old(self), final(self), field@, -value, r),
    {
        self.alter_numerical_field(field, -value)
    }

    /// What a name-keyed change by `value` does: on a known name that field
    /// gains `value` and nothing else moves; on any other name nothing moves
    /// and the name is reported.
    pub open spec fn numeric_change(
        before: &Config,
        after: &Config,
        field: Seq<char>,
        value: int,
        r: Result<(), ConfigError>,
    ) -> bool {
        match numeric_field_named(field) {
            Some(f) => {
                &&& r is Ok
                &&& after.numeric(f) == before.numeric(f) + value
                &&& after.same_except_numeric(before, Some(f))
            },
            None => {
                &&& r matches Err(ConfigError::UnknownField(name)) && name@ == field
                &&& after.same_except_numeric(before, None)
            },
        }
    }

    fn alter_numerical_field(&mut self, field: &str, value: i32) -> (r: Result<(), ConfigError>)
        requires
            old(self).change_fits(field@, value as int),
        ensures
            Self::numeric_change(old(self), final(self), field@, value as int, r),
    {
        match NumericField::from_name(field) {
            Some(NumericField::AppBarHeight) => self.app_bar_height = self.app_bar_height + value,
            Some(NumericField::AppBarBg) => self.app_bar_bg = self.app_bar_bg + value,
            Some(NumericField::AppBarFontSize) => self.app_bar_font_size = self.app_bar_font_size
                + value,
            Some(NumericField::Margin) => self.margin = self.margin + value,
            Some(NumericField::Padding) => self.padding = self.padding + value,
            None => {
                return Err(ConfigError::UnknownField(field.to_owned()));
            },
        }
        Ok(())
    }

    /// Flips the boolean field named `field`. A name outside the allow-list
    /// changes nothing and is reported as `UnknownField`.
    pub fn toggle_field(&mut self, field: &str) -> (r: Result<(), ConfigError>)
        ensures
            match toggle_field_named(field@) {
                Some(f) => {
                    &&& r is Ok
                    &&& final(self).flag(f) == !old(self).flag(f)
                    &&& final(self).same_except_flag(old(self), Some(f))
                },
                None => {
                    &&& r matches Err(ConfigError::UnknownField(name)) && name@ == field@
                    &&& final(self).same_except_flag(old(self), None)
                },
            },
    {
        match ToggleField::from_name(field) {
            Some(ToggleField::UseBorder) => self.use_border = !self.use_border,
            Some(ToggleField::LightTheme) => self.light_theme = !self.light_theme,
            Some(ToggleField::LaunchOnStartup) => self.launch_on_startup = !self.launch_on_startup,
            Some(ToggleField::RemoveTitleBar) => self.remove_title_bar = !self.remove_title_bar,
            Some(ToggleField::RemoveTaskBar) => self.remove_task_bar = !self.remove_task_bar,
            Some(ToggleField::DisplayAppBar) => self.display_app_bar = !self.display_app_bar,
            None => {
                return Err(ConfigError::UnknownField(field.to_owned()));
            },
        }
        Ok(())
    }
}

} // verus!
