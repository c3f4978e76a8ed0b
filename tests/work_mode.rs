use wwm_core::work_mode::{handle, turn_work_mode_off, turn_work_mode_on, ModeAction, ModeToggle};

/// Runs one toggle against a recording double; `fail_at` names an action that fails.
fn run(work_mode: bool, bar: bool, taskbar: bool, fail_at: Option<ModeAction>, log: &mut Vec<ModeAction>) -> bool {
    let mut toggle = ModeToggle::start(work_mode, bar, taskbar);
    while let Some(action) = toggle.next_action() {
        log.push(action);
        toggle.report(Some(action) != fail_at);
    }
    toggle.outcome()
}

#[test]
fn toggle_on_then_off_in_order() {
    let mut log = Vec::new();
    let mode = run(false, true, true, None, &mut log);
    assert!(mode);
    assert_eq!(log, vec![ModeAction::RegisterHooks, ModeAction::CreateBar, ModeAction::HideTaskbars]);
    log.clear();
    let mode = run(mode, true, true, None, &mut log);
    assert!(!mode);
    assert_eq!(
        log,
        vec![
            ModeAction::UnregisterHooks,
            ModeAction::ClosePopup,
            ModeAction::CloseBar,
            ModeAction::ShowTaskbars,
            ModeAction::UnmanageEverything,
        ]
    );
}

#[test]
fn toggle_without_bar_or_taskbar() {
    assert_eq!(turn_work_mode_on(false, false), vec![ModeAction::RegisterHooks]);
    assert_eq!(
        turn_work_mode_off(false, false),
        vec![ModeAction::UnregisterHooks, ModeAction::ClosePopup, ModeAction::UnmanageEverything]
    );
    assert_eq!(handle(true, false, false), turn_work_mode_off(false, false));
    assert_eq!(handle(false, true, false), turn_work_mode_on(true, false));
}

#[test]
fn failed_action_keeps_mode_and_stops() {
    let mut log = Vec::new();
    let mode = run(false, true, true, Some(ModeAction::CreateBar), &mut log);
    assert!(!mode);
    assert_eq!(log, vec![ModeAction::RegisterHooks, ModeAction::CreateBar]);
}
