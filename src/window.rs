//! The per-window state: captured original appearance, current style bits,
//! associated rule, the decoration policy and the restore plan.
use vstd::prelude::*;
use crate::config::Config;
use crate::geometry::{compensate, compensated_rect, rect_of, DecorationClass, FrameMetrics, GeometryFlags, Rect};
use crate::rule::{has_default_flags, Rule};
use crate::style::{GwlExStyle, GwlStyle, WS_BORDER, WS_CAPTION, WS_THICKFRAME};

verus! {

/// A platform call on a window's behalf, in the order it must be made.
#[derive(Clone, Copy, Debug, PartialEq, Eq, Structural)]
pub enum WindowCommand {
    /// Push these standard style bits to the native window.
    SetStyle(u32),
    /// Push these extended style bits to the native window.
    SetExStyle(u32),
    /// Move and size the native window to this rectangle.
    Reposition(Rect),
    /// Issue the maximize system command.
    Maximize,
}

/// A failed platform call, with the platform's last error code.
#[derive(Clone, Copy, Debug, PartialEq, Eq, Structural)]
pub struct WinApiError {
    pub code: u32,
}

/// One managed native top-level window.
#[derive(Debug)]
pub struct Window {
    /// The native handle.
    pub id: i32,
    pub title: String,
    pub maximized: bool,
    /// The rule that classified the window; none means the default flags.
    pub rule: Option<Rule>,
    pub style: GwlStyle,
    pub exstyle: GwlExStyle,
    /// The style the window had when it entered management.
    pub original_style: GwlStyle,
    /// The bounds the window had when it entered management.
    pub original_rect: Rect,
}

/// The decoration class of a window: that of its rule, or plain without one.
pub open spec fn decoration_of(rule: Option<Rule>) -> DecorationClass {
    match rule {
        Some(r) => DecorationClass {
            chromium: r.chromium,
            firefox: r.firefox,
            has_custom_titlebar: r.has_custom_titlebar,
        },
        None => DecorationClass { chromium: false, firefox: false, has_custom_titlebar: false },
    }
}

/// The style bits after the decoration policy: caption and thick frame go
/// unless the window draws browser chrome; the border bit comes with border mode.
pub open spec fn title_bar_removed(bits: u32, c: DecorationClass, use_border: bool) -> u32 {
    let stripped = if !c.chromium && !c.firefox {
        (bits & !WS_CAPTION) & !WS_THICKFRAME
    } else {
        bits
    };
    if use_border {
        stripped | WS_BORDER
    } else {
        stripped
    }
}

/// The platform calls that put a window back as it was before management:
/// style first, then position, then maximize again if it was maximized.
pub open spec fn reset_commands(w: Window) -> Seq<WindowCommand> {
    let base = seq![
        WindowCommand::SetStyle(w.original_style.bits),
        WindowCommand::Reposition(w.original_rect),
    ];
    if w.maximized {
        base.push(WindowCommand::Maximize)
    } else {
        base
    }
}

/// The part of a path after its last backslash; the whole path when it has none.
pub open spec fn last_segment(path: Seq<char>) -> Seq<char>
    decreases path.len(),
{
    if path.len() == 0 {
        path
    } else if path.last() == '\\' {
        Seq::empty()
    } else {
        last_segment(path.drop_last()).push(path.last())
    }
}

/// Relies on `str::rsplit_once`: it splits at the last occurrence of the
/// separator, and gives nothing when the separator does not occur.
#[verifier::external_body]
fn after_last_backslash(path: &str) -> (r: &str)
    ensures
        r@ == last_segment(path@),
{
    match path.rsplit_once('\\') {
        Some((_, name)) => name,
        None => path,
    }
}

/// The fields of `a` and `b` other than the style bits agree.
pub open spec fn same_but_style(a: Window, b: Window) -> bool {
    &&& a.id == b.id
    &&& a.title@ == b.title@
    &&& a.maximized == b.maximized
    &&& a.rule == b.rule
    &&& a.exstyle == b.exstyle
    &&& a.original_style == b.original_style
    &&& a.original_rect == b.original_rect
}

impl Window {
    /// A record for handle `hwnd` with nothing captured yet.
    pub fn new(hwnd: i32) -> (r: Window)
        ensures
            r.id == hwnd,
            r.title@.len() == 0,
            !r.maximized,
            r.rule is None,
            r.style.bits == 0,
            r.exstyle.bits == 0,
            r.original_style.bits == 0,
            r.original_rect == (Rect { left: 0, top: 0, right: 0, bottom: 0 }),
    {
        Window {
            id: hwnd,
            title: String::new(),
            maximized: false,
            rule: None,
            style: GwlStyle::empty(),
            exstyle: GwlExStyle::empty(),
            original_style: GwlStyle::empty(),
            original_rect: Rect { left: 0, top: 0, right: 0, bottom: 0 },
        }
    }

    /// Takes a native window into management, capturing its live style and
    /// bounds as the original state. This is the only place that sets the
    /// original state: no operation of a managed window writes it again.
    pub fn manage(
        hwnd: i32,
        title: String,
        maximized: bool,
        rule: Option<Rule>,
        style: GwlStyle,
        exstyle: GwlExStyle,
        rect: Rect,
    ) -> (r: Window)
        ensures
            r.id == hwnd,
            r.title == title,
            r.maximized == maximized,
            r.rule == rule,
            r.style == style,
            r.exstyle == exstyle,
            r.original_style == style,
            r.original_rect == rect,
    {
        Window {
            id: hwnd,
            title,
            maximized,
            rule,
            style,
            exstyle,
            original_style: style,
            original_rect: rect,
        }
    }

    pub fn reset_style(&mut self)
        ensures
            final(self).style == old(self).original_style,
            same_but_style(*final(self), *old(self)),
    {
        self.style = self.original_style;
    }

    /// Restores the captured style and returns the platform calls that bring
    /// the native window back to its original appearance, in order.
    pub fn reset(&mut self) -> (r: Vec<WindowCommand>)
        ensures
            final(self).style == old(self).original_style,
            same_but_style(*final(self), *old(self)),
            r@ == reset_commands(*old(self)),
    {
        self.reset_style();
        let mut commands: Vec<WindowCommand> = Vec::new();
        commands.push(self.update_style());
        commands.push(self.reset_pos());
        if self.maximized {
            commands.push(WindowCommand::Maximize);
        }
        commands
    }

    /// The platform call that moves the window back to its original bounds.
    pub fn reset_pos(&self) -> (r: WindowCommand)
        ensures
            r == WindowCommand::Reposition(self.original_rect),
    {
        WindowCommand::Reposition(self.original_rect)
    }

    /// The platform call that pushes the current style bits.
    pub fn update_style(&self) -> (r: WindowCommand)
        ensures
            r == WindowCommand::SetStyle(self.style.bits),
    {
        WindowCommand::SetStyle(self.style.bits)
    }

    /// The platform call that pushes the current extended style bits.
    pub fn update_exstyle(&self) -> (r: WindowCommand)
        ensures
            r == WindowCommand::SetExStyle(self.exstyle.bits),
    {
        WindowCommand::SetExStyle(self.exstyle.bits)
    }

    /// The short name of a process: the last segment of its executable path.
    pub fn get_process_name(process_path: &str) -> (r: String)
        ensures
            r@ == last_segment(process_path@),
    {
        after_last_backslash(process_path).to_owned()
    }

    /// Applies the decoration policy of the window's rule under `config`.
    pub fn remove_title_bar(&mut self, config: &Config)
        ensures
            final(self).style.bits == title_bar_removed(
                old(self).style.bits,
                decoration_of(old(self).rule),
                config.use_border,
            ),
            same_but_style(*final(self), *old(self)),
    {
        let (chromium, firefox) = match &self.rule {
            Some(rule) => (rule.chromium, rule.firefox),
            None => (false, false),
        };
        if !chromium && !firefox {
            self.style.remove(WS_CAPTION);
            self.style.remove(WS_THICKFRAME);
        }
        if config.use_border {
            self.style.insert(WS_BORDER);
        }
    }

    /// The native rectangle to request so that the window's visible bounds
    /// are the tile at (`x`, `y`) of size `width` by `height`, given the
    /// configuration snapshot and the platform's frame metrics; `None` when
    /// an edge does not fit in 32 bits.
    pub fn calculate_window_rect(
        &self,
        config: &Config,
        metrics: &FrameMetrics,
        x: i32,
        y: i32,
        width: i32,
        height: i32,
    ) -> (r: Option<Rect>)
        ensures
            rect_of(
                compensated_rect(
                    decoration_of(self.rule),
                    geometry_flags(config),
                    *metrics,
                    x as int,
                    y as int,
                    width as int,
                    height as int,
                ),
                r,
            ),
    {
        let (chromium, firefox, custom) = match &self.rule {
            Some(rule) => (rule.chromium, rule.firefox, rule.has_custom_titlebar),
            None => (false, false, false),
        };
        compensate(
            chromium,
            firefox,
            custom,
            config.display_app_bar,
            config.remove_title_bar,
            config.app_bar_height,
            config.use_border,
            metrics,
            x,
            y,
            width,
            height,
        )
    }
}

impl Default for Window {
    fn default() -> (r: Window)
        ensures
            r.id == 0,
            r.title@.len() == 0,
            !r.maximized,
            r.rule is None,
            r.style.bits == 0,
            r.exstyle.bits == 0,
            r.original_style.bits == 0,
            r.original_rect == (Rect { left: 0, top: 0, right: 0, bottom: 0 }),
    {
        Window::new(0)
    }
}

/// The switches of `config` that geometry reads.
pub open spec fn geometry_flags(config: &Config) -> GeometryFlags {
    GeometryFlags {
        display_app_bar: config.display_app_bar,
        remove_title_bar: config.remove_title_bar,
        bar_height: config.app_bar_height as int,
        use_border: config.use_border,
    }
}

/// A change that the manager makes to a window's style while it is managed.
#[derive(Clone, Copy, Debug, PartialEq, Eq, Structural)]
pub enum StyleChange {
    /// The decoration policy, with border mode on or off.
    RemoveTitleBar(bool),
    ResetStyle,
    SetStyle(u32),
    SetExStyle(u32),
}

/// The window after one change, as the methods that make it state.
pub open spec fn after_change(w: Window, c: StyleChange) -> Window {
    match c {
        StyleChange::RemoveTitleBar(use_border) => Window {
            style: GwlStyle { bits: title_bar_removed(w.style.bits, decoration_of(w.rule), use_border) },
            ..w
        },
        StyleChange::ResetStyle => Window { style: w.original_style, ..w },
        StyleChange::SetStyle(bits) => Window { style: GwlStyle { bits }, ..w },
        StyleChange::SetExStyle(bits) => Window { exstyle: GwlExStyle { bits }, ..w },
    }
}

/// The window after a sequence of changes, first to last.
pub open spec fn after_changes(w: Window, cs: Seq<StyleChange>) -> Window
    decreases cs.len(),
{
    if cs.len() == 0 {
        w
    } else {
        after_changes(after_change(w, cs[0]), cs.drop_first())
    }
}

/// Whatever decoration and style changes a managed window goes through, a
/// reset pushes exactly the style it had on entering management and moves it
/// back to exactly the bounds it had then, style before position.
pub proof fn lemma_reset_restores_original(w: Window, cs: Seq<StyleChange>)
    ensures
        after_changes(w, cs).original_style == w.original_style,
        after_changes(w, cs).original_rect == w.original_rect,
        reset_commands(after_changes(w, cs))[0] == WindowCommand::SetStyle(w.original_style.bits),
        reset_commands(after_changes(w, cs))[1] == WindowCommand::Reposition(w.original_rect),
    decreases cs.len(),
{
    if cs.len() > 0 {
        lemma_reset_restores_original(after_change(w, cs[0]), cs.drop_first());
    }
}

/// A window without a rule is decorated and placed exactly as one whose rule
/// holds the default flags (managed, frame removed, no browser chrome, no
/// custom title bar, no workspace).
pub proof fn lemma_default_rule(
    w: Window,
    explicit: Rule,
    config: &Config,
    metrics: FrameMetrics,
    x: int,
    y: int,
    width: int,
    height: int,
)
    requires
        w.rule is None,
        has_default_flags(explicit),
    ensures
        title_bar_removed(w.style.bits, decoration_of(w.rule), config.use_border)
            == title_bar_removed(w.style.bits, decoration_of(Some(explicit)), config.use_border),
        compensated_rect(decoration_of(w.rule), geometry_flags(config), metrics, x, y, width, height)
            == compensated_rect(
            decoration_of(Some(explicit)),
            geometry_flags(config),
            metrics,
            x,
            y,
            width,
            height,
        ),
{
    assert(decoration_of(w.rule) == decoration_of(Some(explicit)));
}

/// The geometry computation is a function of its inputs alone: the same
/// class, configuration switches, metrics and tile give the same rectangle.
pub proof fn lemma_geometry_deterministic(
    c: DecorationClass,
    g: GeometryFlags,
    m: FrameMetrics,
    x: int,
    y: int,
    width: int,
    height: int,
    r1: Option<Rect>,
    r2: Option<Rect>,
)
    requires
        rect_of(compensated_rect(c, g, m, x, y, width, height), r1),
        rect_of(compensated_rect(c, g, m, x, y, width, height), r2),
    ensures
        r1 == r2,
{
}

/// The decoration policy applied twice gives the style it gives once.
pub proof fn lemma_title_bar_removal_idempotent(bits: u32, c: DecorationClass, use_border: bool)
    ensures
        title_bar_removed(title_bar_removed(bits, c, use_border), c, use_border)
            == title_bar_removed(bits, c, use_border),
{
    let cap = WS_CAPTION;
    let thick = WS_THICKFRAME;
    let border = WS_BORDER;
    assert(((bits & !cap) & !thick) & !cap & !thick == (bits & !cap) & !thick) by (bit_vector);
    assert(((bits & !cap) & !thick) | border == ((((bits & !cap) & !thick) | border) & !cap & !thick) | border) by (bit_vector)
        requires cap == 0x00C0_0000u32, thick == 0x0004_0000u32, border == 0x0080_0000u32;
    assert((bits | border) | border == bits | border) by (bit_vector);
}

} // verus!
