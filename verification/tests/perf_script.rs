use codex_plus_manager_native::perf_script::{
    drive_plan, due_script_key, script_step, scripted_action, DrivePlan, PerfScriptAction,
    ScriptKey,
};

#[test]
fn script_presses_five_keys_half_a_second_apart() {
    assert_eq!(script_step(0), Some((500, ScriptKey::F6)));
    assert_eq!(script_step(4), Some((2500, ScriptKey::F10)));
    assert_eq!(script_step(5), None);
    assert_eq!(scripted_action(ScriptKey::F6), PerfScriptAction::NavigateAbout);
    assert_eq!(scripted_action(ScriptKey::F7), PerfScriptAction::NavigateOverview);
    assert_eq!(scripted_action(ScriptKey::F8), PerfScriptAction::ToggleLocale);
    assert_eq!(scripted_action(ScriptKey::F9), PerfScriptAction::ToggleTheme);
    assert_eq!(scripted_action(ScriptKey::F10), PerfScriptAction::Refresh);
}

#[test]
fn script_keys_fire_only_when_due() {
    assert_eq!(due_script_key(0, 499), None);
    assert_eq!(due_script_key(0, 500), Some(ScriptKey::F6));
    assert_eq!(due_script_key(2, 1600), Some(ScriptKey::F8));
    assert_eq!(due_script_key(5, 10_000), None);
}

#[test]
fn drive_repaints_while_scripted_and_closes_once() {
    assert_eq!(
        drive_plan(1_000, None, false),
        DrivePlan { repaint_after_frame: true, repaint_after_micros: None, close: false }
    );
    assert_eq!(
        drive_plan(6_000_000, Some(8_000_000), false),
        DrivePlan { repaint_after_frame: false, repaint_after_micros: Some(2_000_000), close: false }
    );
    assert!(drive_plan(8_000_000, Some(8_000_000), false).close);
    assert!(!drive_plan(9_000_000, Some(8_000_000), true).close);
}
