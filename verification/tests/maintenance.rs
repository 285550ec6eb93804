use codex_plus_manager_native::maintenance::{
    merge_partial_workspace, ConfiguredAppPath, MaintenanceDocumentTab, MaintenanceFailure,
    MaintenanceFailureKind, MaintenanceLoadPhase, MaintenanceOperationPhase,
    MaintenanceTransition, MaintenanceViewState, MaintenanceWorkspace, SectionValue,
    DEFAULT_DEBUG_PORT, DEFAULT_HELPER_PORT, DEFAULT_LOG_LIMIT,
};
use codex_plus_manager_native::overview::Route;
use codex_plus_manager_native::path_picker::{
    PathPickerErrorKind, PathPickerResponse, PathPickerTarget,
};

type Workspace = MaintenanceWorkspace<u32, u32, u32>;
type State = MaintenanceViewState<u32, u32, u32, &'static str>;

fn workspace(path: Option<(u64, &str)>, logs: Option<&str>) -> Workspace {
    MaintenanceWorkspace {
        app_path: path.map(|(revision, value)| ConfiguredAppPath {
            revision,
            value: value.to_owned(),
        }),
        codex_app: SectionValue::Available(1),
        entrypoints: SectionValue::Available(2),
        latest_launch: SectionValue::Unavailable,
        logs: match logs {
            Some(text) => SectionValue::Available(text.to_owned()),
            None => SectionValue::Unavailable,
        },
        diagnostics: "report".to_owned(),
    }
}

fn loaded(path: &str) -> State {
    let mut state = State::default();
    let id = state.begin_load();
    assert!(state.apply_load_response(id, Ok(workspace(Some((7, path)), Some("log line")))));
    state
}

#[test]
fn maintenance_defaults_use_standard_ports_and_log_limit() {
    let state = State::default();
    assert_eq!(state.load_phase, MaintenanceLoadPhase::Idle);
    assert_eq!(state.debug_port, DEFAULT_DEBUG_PORT);
    assert_eq!(state.debug_port, 9229);
    assert_eq!(state.helper_port, DEFAULT_HELPER_PORT);
    assert_eq!(state.helper_port, 57321);
    assert_eq!(state.log_limit, DEFAULT_LOG_LIMIT);
    assert_eq!(state.log_limit, 100);
    assert_eq!(state.document_tab, MaintenanceDocumentTab::Logs);
    assert!(!state.path_dirty());
    assert!(state.active_document_text().is_none());
}

#[test]
fn maintenance_load_installs_path_and_ignores_stale_answers() {
    let mut state = State::default();
    let first = state.begin_load();
    assert_eq!(state.load_phase, MaintenanceLoadPhase::Loading);
    let second = state.begin_load();
    assert!(second > first);
    assert!(!state.apply_load_response(first, Ok(workspace(Some((1, "old")), None))));
    assert!(state.workspace.is_none());
    assert!(state.apply_load_response(second, Ok(workspace(Some((2, "C:/Codex")), Some("log")))));
    assert_eq!(state.load_phase, MaintenanceLoadPhase::Ready);
    assert_eq!(state.app_path_draft.expose(), "C:/Codex");
    assert!(!state.path_dirty());
    assert_eq!(state.active_document_text(), Some("log"));
    state.set_document_tab(MaintenanceDocumentTab::Report);
    assert_eq!(state.active_document_text(), Some("report"));

    let refresh = state.begin_load();
    assert_eq!(state.load_phase, MaintenanceLoadPhase::Refreshing);
    assert!(state.apply_load_response(refresh, Err(MaintenanceFailureKind::SettingsReadFailed)));
    assert_eq!(state.load_phase, MaintenanceLoadPhase::Error);
    assert_eq!(state.load_error, Some(MaintenanceFailureKind::SettingsReadFailed));
    assert!(state.workspace.is_some());
}

#[test]
fn maintenance_reload_keeps_an_edited_path() {
    let mut state = loaded("C:/Codex");
    state.set_app_path("D:/Edited".to_owned());
    assert!(state.path_dirty());
    let id = state.begin_load();
    assert!(state.apply_load_response(id, Ok(workspace(Some((8, "C:/Stored")), None))));
    assert_eq!(state.app_path_draft.expose(), "D:/Edited");
    assert!(state.path_dirty());
    // The logs that could not be read this time are kept from before.
    assert_eq!(state.active_document_text(), Some("log line"));
}

#[test]
fn merge_keeps_sections_that_could_not_be_read_again() {
    let previous = workspace(Some((3, "C:/Codex")), Some("old log"));
    let mut incoming = workspace(None, None);
    incoming.entrypoints = SectionValue::Unavailable;
    incoming.latest_launch = SectionValue::Available(9);
    let merged = merge_partial_workspace(Some(previous), incoming);
    assert_eq!(merged.app_path.as_ref().unwrap().value, "C:/Codex");
    assert_eq!(merged.app_path.as_ref().unwrap().revision, 3);
    assert!(matches!(merged.entrypoints, SectionValue::Available(2)));
    assert!(matches!(merged.latest_launch, SectionValue::Available(9)));
    assert!(matches!(&merged.logs, SectionValue::Available(text) if text == "old log"));
    let first = merge_partial_workspace(None, workspace(None, None));
    assert!(first.app_path.is_none());
    assert!(first.logs.is_unavailable());
}

#[test]
fn maintenance_save_sends_the_edited_path_once() {
    let mut state = loaded("C:/Codex");
    assert!(state.begin_save().is_none());
    state.set_app_path("D:/Codex".to_owned());
    let (id, request) = state.begin_save().expect("save starts");
    assert_eq!(request.expected_revision, 7);
    assert_eq!(request.path, "D:/Codex");
    assert!(!request.confirmed_clear);
    assert_eq!(state.save.phase, MaintenanceOperationPhase::Running);
    assert!(state.begin_save().is_none());
    assert!(!state.apply_save_response(id + 1, Ok(workspace(Some((8, "D:/Codex")), None))));
    assert!(state.apply_save_response(id, Ok(workspace(Some((8, "D:/Codex")), None))));
    assert_eq!(state.save.phase, MaintenanceOperationPhase::Ready);
    assert!(!state.path_dirty());
}

#[test]
fn maintenance_save_conflict_is_shown_and_cleared_by_an_edit() {
    let mut state = loaded("C:/Codex");
    state.set_app_path("D:/Codex".to_owned());
    let (id, _) = state.begin_save().unwrap();
    let failure = MaintenanceFailure::with_workspace(
        MaintenanceFailureKind::SettingsConflict,
        workspace(Some((9, "E:/Other")), None),
    );
    assert!(state.apply_save_response(id, Err(failure)));
    assert!(state.conflict_visible());
    assert_eq!(state.save.error, Some(MaintenanceFailureKind::SettingsConflict));
    assert_eq!(state.app_path_draft.expose(), "D:/Codex");
    state.set_app_path("F:/Codex".to_owned());
    assert!(!state.conflict_visible());

    let (id, _) = state.begin_save().unwrap();
    assert!(state.apply_save_response(id, Err(MaintenanceFailure::new(MaintenanceFailureKind::InvalidPath))));
    assert!(!state.conflict_visible());
    assert_eq!(state.save.phase, MaintenanceOperationPhase::Error);
}

#[test]
fn clearing_a_configured_path_needs_confirmation() {
    let mut state = loaded("C:/Codex");
    state.set_app_path("   ".to_owned());
    assert!(state.begin_save().is_none());
    assert!(state.clear_confirmation_visible());
    state.cancel_clear();
    assert!(!state.clear_confirmation_visible());

    assert!(state.request_clear());
    assert!(!state.request_clear());
    let (_, request) = state.confirm_clear().expect("clear starts");
    assert!(request.confirmed_clear);
    assert_eq!(request.path, "");
    assert_eq!(request.expected_revision, 7);
    assert!(!state.clear_confirmation_visible());
    assert!(state.confirm_clear().is_none());
}

#[test]
fn clearing_an_empty_path_is_saved_without_confirmation() {
    let mut state = loaded("");
    state.set_app_path("C:/New".to_owned());
    let (id, _) = state.begin_save().unwrap();
    assert!(state.apply_save_response(id, Ok(workspace(Some((8, "")), None))));
    assert!(!state.request_clear());
}

#[test]
fn launch_uses_the_edited_path_and_ports() {
    let mut state = loaded("C:/Codex");
    state.debug_port = 9333;
    let (id, launch) = state.begin_launch().unwrap();
    assert_eq!(launch.app_path, "C:/Codex");
    assert_eq!(launch.debug_port, 9333);
    assert_eq!(launch.helper_port, 57321);
    assert!(state.begin_launch().is_none());
    assert!(state.apply_launch_response(id, Ok("started")));
    assert_eq!(state.launch.phase, MaintenanceOperationPhase::Ready);
    assert_eq!(state.launch_outcome, Some("started"));

    let (id, _) = state.begin_launch().unwrap();
    assert!(state.launch_outcome.is_none());
    assert!(state.apply_launch_response(id, Err(MaintenanceFailureKind::LaunchFailed)));
    assert_eq!(state.launch.error, Some(MaintenanceFailureKind::LaunchFailed));
}

#[test]
fn log_limit_accepts_only_offered_sizes() {
    let mut state = State::default();
    assert!(state.set_log_limit(50));
    assert_eq!(state.log_limit, 50);
    assert!(state.set_log_limit(200));
    assert!(!state.set_log_limit(150));
    assert_eq!(state.log_limit, 200);
    assert!(!state.set_log_limit(0));
}

#[test]
fn picker_answers_only_the_open_dialog() {
    let mut state = loaded("C:/Codex");
    let request = state.begin_picker(PathPickerTarget::MaintenanceAppPath).unwrap();
    assert!(state.picker_pending());
    assert!(state.begin_picker(PathPickerTarget::MaintenanceAppPath).is_none());
    let stale = PathPickerResponse {
        request_id: request.request_id + 1,
        target: request.target,
        path: Some("X:/Wrong".to_owned()),
        error: None,
    };
    assert!(!state.apply_picker_response(stale));
    let answer = PathPickerResponse {
        request_id: request.request_id,
        target: request.target,
        path: Some("D:/Picked".to_owned()),
        error: None,
    };
    assert!(state.apply_picker_response(answer));
    assert!(!state.picker_pending());
    assert_eq!(state.app_path_draft.expose(), "D:/Picked");

    let request = state.begin_picker(PathPickerTarget::MaintenanceAppPath).unwrap();
    let failed = PathPickerResponse {
        request_id: request.request_id,
        target: request.target,
        path: None,
        error: Some(PathPickerErrorKind::Failed),
    };
    assert!(state.apply_picker_response(failed));
    assert_eq!(state.picker_error, Some(PathPickerErrorKind::Failed));
    assert_eq!(state.app_path_draft.expose(), "D:/Picked");
    state.invalidate_picker();
    assert!(state.picker_error.is_none());
}

#[test]
fn leaving_with_an_edited_path_asks_to_discard_it() {
    let mut state = loaded("C:/Codex");
    assert!(state.request_transition(MaintenanceTransition::Refresh));
    state.set_app_path("D:/Edited".to_owned());
    assert!(!state.request_transition(MaintenanceTransition::Navigate(Route::About)));
    assert!(!state.request_transition(MaintenanceTransition::Refresh));
    assert!(state.discard_confirmation_visible());
    state.cancel_transition();
    assert!(!state.discard_confirmation_visible());
    assert!(!state.request_transition(MaintenanceTransition::Navigate(Route::About)));
    assert_eq!(
        state.confirm_discard_transition(),
        Some(MaintenanceTransition::Navigate(Route::About))
    );
    assert_eq!(state.app_path_draft.expose(), "C:/Codex");
    assert!(!state.path_dirty());
    assert_eq!(state.confirm_discard_transition(), None);
}
