use codex_plus_manager_native::enhancements::{
    EnhancementFailure, EnhancementFailureKind, EnhancementFeedback, EnhancementLoadPhase, EnhancementOperationPhase,
    EnhancementSettings, EnhancementViewState, EnhancementWorkspace, LaunchMode,
};

fn stored(revision: u64, enabled: bool) -> EnhancementWorkspace {
    EnhancementWorkspace {
        revision,
        settings: EnhancementSettings { enabled, ..EnhancementSettings::default() },
    }
}

fn loaded() -> EnhancementViewState {
    let mut state = EnhancementViewState::default();
    let id = state.begin_load();
    assert_eq!(state.load_phase, EnhancementLoadPhase::Loading);
    assert!(state.apply_load_response(id, Ok(stored(1, true))));
    state
}

#[test]
fn enhancements_start_unloaded_and_clean() {
    let state = EnhancementViewState::default();
    assert!(!state.initialized);
    assert!(!state.is_dirty());
    assert!(!state.subcontrols_enabled());
    assert_eq!(state.operation_phase, EnhancementOperationPhase::Idle);
    assert_eq!(*state.draft(), EnhancementSettings::default());
}

#[test]
fn enhancement_save_round_trip() {
    let mut state = loaded();
    assert!(state.subcontrols_enabled());
    assert!(state.begin_save().is_none());
    let edited = EnhancementSettings { paste_fix: true, ..*state.draft() };
    state.edit(edited);
    assert!(state.is_dirty());
    let (id, request) = state.begin_save().unwrap();
    assert_eq!(request.expected_revision, 1);
    assert_eq!(request.settings, edited);
    assert!(!state.subcontrols_enabled());
    assert!(state.begin_save().is_none());
    assert!(!state.apply_save_response(id + 1, Ok(stored(2, true))));
    let answer = EnhancementWorkspace { revision: 2, settings: edited };
    assert!(state.apply_save_response(id, Ok(answer)));
    assert_eq!(state.operation_phase, EnhancementOperationPhase::Ready);
    assert!(!state.is_dirty());
}

#[test]
fn enhancement_edit_during_save_survives() {
    let mut state = loaded();
    let first = EnhancementSettings { session_delete: true, ..*state.draft() };
    state.edit(first);
    let (id, _) = state.begin_save().unwrap();
    let later = EnhancementSettings { launch_mode: LaunchMode::Relay, ..first };
    state.edit(later);
    assert!(state.apply_save_response(id, Ok(EnhancementWorkspace { revision: 2, settings: first })));
    assert_eq!(*state.draft(), later);
    assert!(state.is_dirty());
}

#[test]
fn enhancement_reload_keeps_an_edited_draft() {
    let mut state = loaded();
    let edited = EnhancementSettings { fast_startup: true, ..*state.draft() };
    state.edit(edited);
    let id = state.begin_load();
    assert_eq!(state.load_phase, EnhancementLoadPhase::Refreshing);
    assert!(state.apply_load_response(id, Ok(stored(5, false))));
    assert_eq!(*state.draft(), edited);
    state.discard_changes();
    assert!(!state.draft().enabled);
    assert!(!state.is_dirty());
}

#[test]
fn enhancement_conflict_is_reloaded_on_request() {
    let mut state = loaded();
    state.edit(EnhancementSettings { paste_fix: true, ..*state.draft() });
    let (id, _) = state.begin_save().unwrap();
    let failure =
        EnhancementFailure::with_workspace(EnhancementFailureKind::SettingsConflict, stored(9, false));
    assert!(state.apply_save_response(id, Err(failure)));
    assert_eq!(state.error, Some(EnhancementFailureKind::SettingsConflict));
    assert!(state.begin_save().is_none());
    assert!(state.reload_conflict());
    assert!(!state.draft().enabled);
    assert!(state.error.is_none());
    assert!(!state.reload_conflict());
}

#[test]
fn enhancement_reset_needs_confirmation() {
    let mut state = loaded();
    assert!(state.request_reset());
    assert!(!state.request_reset());
    assert!(state.reset_confirmation_pending());
    state.cancel_reset();
    assert!(state.confirm_reset().is_none());
    assert!(state.request_reset());
    let (id, request) = state.confirm_reset().unwrap();
    assert!(request.confirmed);
    assert_eq!(request.expected_revision, 1);
    assert_eq!(state.operation_phase, EnhancementOperationPhase::Resetting);
    assert!(!state.apply_save_response(id, Ok(stored(2, false))));
    assert!(state.apply_reset_response(id, Ok(stored(2, false))));
    assert!(!state.draft().enabled);
}

#[test]
fn enhancement_worker_stop_fails_running_work() {
    let mut state = loaded();
    state.edit(EnhancementSettings { paste_fix: true, ..*state.draft() });
    let _ = state.begin_save().unwrap();
    let _ = state.begin_load();
    state.fail_running_operations();
    assert_eq!(state.load_phase, EnhancementLoadPhase::Error);
    assert_eq!(state.load_error, Some(EnhancementFailureKind::WorkerStopped));
    assert_eq!(state.operation_phase, EnhancementOperationPhase::Error);
    assert_eq!(state.error, Some(EnhancementFailureKind::WorkerStopped));
    assert!(state.begin_save().is_none());
    let _ = EnhancementFailure::new(EnhancementFailureKind::WorkerStopped);
}

#[test]
fn enhancement_from_workspace_is_ready() {
    let state = EnhancementViewState::from_workspace(stored(3, true));
    assert!(state.initialized);
    assert_eq!(state.load_phase, EnhancementLoadPhase::Ready);
    assert!(state.draft().enabled);
}

#[test]
fn enhancement_feedback_prefers_conflicts_then_failures() {
    let mut state = loaded();
    assert_eq!(state.feedback(), None);
    state.edit(EnhancementSettings { paste_fix: true, ..*state.draft() });
    assert_eq!(state.feedback(), Some(EnhancementFeedback::Unsaved));
    let (id, _) = state.begin_save().unwrap();
    assert!(state.apply_save_response(
        id,
        Err(EnhancementFailure::new(EnhancementFailureKind::SettingsConflict))
    ));
    assert_eq!(state.feedback(), Some(EnhancementFeedback::Conflict));
    state.discard_changes();
    assert_eq!(state.feedback(), None);
    let id = state.begin_load();
    assert!(state.apply_load_response(id, Err(EnhancementFailureKind::SettingsReadFailed)));
    assert_eq!(
        state.feedback(),
        Some(EnhancementFeedback::Failure(EnhancementFailureKind::SettingsReadFailed))
    );
    let id = state.begin_load();
    assert!(state.apply_load_response(id, Ok(stored(4, true))));
    state.edit(EnhancementSettings { paste_fix: true, ..*state.draft() });
    let (id, _) = state.begin_save().unwrap();
    let saved = *state.draft();
    assert!(state.apply_save_response(id, Ok(EnhancementWorkspace { revision: 5, settings: saved })));
    assert_eq!(state.feedback(), Some(EnhancementFeedback::Saved));
}
