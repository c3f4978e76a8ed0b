//! The work-mode lifecycle: which collaborator calls switch the manager on or
//! off, in which order, and when the shared mode flag may flip.
use vstd::prelude::*;

verus! {

/// A call into a collaborator of the orchestrator.
#[derive(Clone, Copy, Debug, PartialEq, Eq, Structural)]
pub enum ModeAction {
    RegisterHooks,
    UnregisterHooks,
    ClosePopup,
    CreateBar,
    CloseBar,
    HideTaskbars,
    ShowTaskbars,
    UnmanageEverything,
}

/// Switching off: hooks go first, then the popup, the bar and the taskbar
/// suppression, and the tracked windows are restored last.
pub open spec fn off_actions(display_app_bar: bool, remove_task_bar: bool) -> Seq<ModeAction> {
    seq![ModeAction::UnregisterHooks, ModeAction::ClosePopup]
        + (if display_app_bar { seq![ModeAction::CloseBar] } else { Seq::empty() })
        + (if remove_task_bar { seq![ModeAction::ShowTaskbars] } else { Seq::empty() })
        + seq![ModeAction::UnmanageEverything]
}

/// Switching on: hooks first, then the bar, then the taskbars are hidden.
pub open spec fn on_actions(display_app_bar: bool, remove_task_bar: bool) -> Seq<ModeAction> {
    seq![ModeAction::RegisterHooks]
        + (if display_app_bar { seq![ModeAction::CreateBar] } else { Seq::empty() })
        + (if remove_task_bar { seq![ModeAction::HideTaskbars] } else { Seq::empty() })
}

/// The calls that toggle the mode from `work_mode`.
pub open spec fn toggle_actions(work_mode: bool, display_app_bar: bool, remove_task_bar: bool) -> Seq<
    ModeAction,
> {
    if work_mode {
        off_actions(display_app_bar, remove_task_bar)
    } else {
        on_actions(display_app_bar, remove_task_bar)
    }
}

/// The calls that switch the manager off, in order.
pub fn turn_work_mode_off(display_app_bar: bool, remove_task_bar: bool) -> (r: Vec<ModeAction>)
    ensures
        r@ == off_actions(display_app_bar, remove_task_bar),
{
    let mut actions: Vec<ModeAction> = Vec::new();
    actions.push(ModeAction::UnregisterHooks);
    actions.push(ModeAction::ClosePopup);
    if display_app_bar {
        actions.push(ModeAction::CloseBar);
    }
    if remove_task_bar {
        actions.push(ModeAction::ShowTaskbars);
    }
    actions.push(ModeAction::UnmanageEverything);
    proof {
        assert(actions@ =~= off_actions(display_app_bar, remove_task_bar));
    }
    actions
}

/// The calls that switch the manager on, in order.
pub fn turn_work_mode_on(display_app_bar: bool, remove_task_bar: bool) -> (r: Vec<ModeAction>)
    ensures
        r@ == on_actions(display_app_bar, remove_task_bar),
{
    let mut actions: Vec<ModeAction> = Vec::new();
    actions.push(ModeAction::RegisterHooks);
    if display_app_bar {
        actions.push(ModeAction::CreateBar);
    }
    if remove_task_bar {
        actions.push(ModeAction::HideTaskbars);
    }
    proof {
        assert(actions@ =~= on_actions(display_app_bar, remove_task_bar));
    }
    actions
}

/// The calls that toggle the mode from `work_mode`, in order.
pub fn handle(work_mode: bool, display_app_bar: bool, remove_task_bar: bool) -> (r: Vec<ModeAction>)
    ensures
        r@ == toggle_actions(work_mode, display_app_bar, remove_task_bar),
{
    if work_mode {
        turn_work_mode_off(display_app_bar, remove_task_bar)
    } else {
        turn_work_mode_on(display_app_bar, remove_task_bar)
    }
}

/// One toggle of the work mode in progress. The caller holds the lock on the
/// shared mode flag for the whole toggle, performs each action that
/// `next_action` names, reports how it went, and writes `outcome` back.
pub struct ModeToggle {
    /// The mode when the toggle started.
    pub from: bool,
    pub actions: Vec<ModeAction>,
    /// How many actions have been performed and succeeded.
    pub done: usize,
    /// Whether an action failed; nothing more is then performed.
    pub failed: bool,
}

impl ModeToggle {
    pub open spec fn wf(&self) -> bool {
        self.done <= self.actions@.len()
    }

    /// Every action succeeded.
    pub open spec fn completed(&self) -> bool {
        !self.failed && self.done == self.actions@.len()
    }

    pub fn start(work_mode: bool, display_app_bar: bool, remove_task_bar: bool) -> (r: ModeToggle)
        ensures
            r.wf(),
            r.from == work_mode,
            r.actions@ == toggle_actions(work_mode, display_app_bar, remove_task_bar),
            r.done == 0,
            !r.failed,
    {
        ModeToggle {
            from: work_mode,
            actions: handle(work_mode, display_app_bar, remove_task_bar),
            done: 0,
            failed: false,
        }
    }

    /// The action to perform now; none once all succeeded or one failed.
    pub fn next_action(&self) -> (r: Option<ModeAction>)
        requires
            self.wf(),
        ensures
            !self.failed && self.done < self.actions@.len() ==> r == Some(
                self.actions@[self.done as int],
            ),
            self.failed || self.done == self.actions@.len() ==> r is None,
    {
        if !self.failed && self.done < self.actions.len() {
            Some(self.actions[self.done])
        } else {
            None
        }
    }

    /// Records how the action that `next_action` named went.
    pub fn report(&mut self, ok: bool)
        requires
            old(self).wf(),
            !old(self).failed,
            old(self).done < old(self).actions@.len(),
        ensures
            final(self).wf(),
            final(self).from == old(self).from,
            final(self).actions@ == old(self).actions@,
            ok ==> final(self).done == old(self).done + 1 && !final(self).failed,
            !ok ==> final(self).done == old(self).done && final(self).failed,
    {
        if ok {
            if self.done < self.actions.len() {
                self.done = self.done + 1;
            }
        } else {
            self.failed = true;
        }
    }

    /// The mode flag after the toggle: flipped only when every action
    /// succeeded, left as it was otherwise.
    pub open spec fn result(&self) -> bool {
        if self.completed() {
            !self.from
        } else {
            self.from
        }
    }

    /// The mode flag to write back.
    pub fn outcome(&self) -> (r: bool)
        ensures
            r == self.result(),
    {
        if !self.failed && self.done == self.actions.len() {
            !self.from
        } else {
            self.from
        }
    }
}

/// Switching off always unregisters the hooks before anything else and
/// restores the tracked windows last; switching on registers the hooks first.
pub proof fn lemma_toggle_order(display_app_bar: bool, remove_task_bar: bool)
    ensures
        off_actions(display_app_bar, remove_task_bar)[0] == ModeAction::UnregisterHooks,
        off_actions(display_app_bar, remove_task_bar).last() == ModeAction::UnmanageEverything,
        on_actions(display_app_bar, remove_task_bar)[0] == ModeAction::RegisterHooks,
{
}

/// Starting switched off, a toggle whose actions all succeed switches the
/// manager on through the switch-on calls, and a second such toggle switches
/// it off again through the switch-off calls.
pub proof fn lemma_toggle_twice(
    first: ModeToggle,
    second: ModeToggle,
    display_app_bar: bool,
    remove_task_bar: bool,
)
    requires
        !first.from,
        first.actions@ == toggle_actions(first.from, display_app_bar, remove_task_bar),
        first.completed(),
        second.from == first.result(),
        second.actions@ == toggle_actions(second.from, display_app_bar, remove_task_bar),
        second.completed(),
    ensures
        first.actions@ == on_actions(display_app_bar, remove_task_bar),
        first.result(),
        second.actions@ == off_actions(display_app_bar, remove_task_bar),
        !second.result(),
{
}

} // verus!
