use codex_plus_manager_native::environment::{
    EnvironmentConflict, EnvironmentFailureKind, EnvironmentRemovalOutcome, EnvironmentResponse,
    EnvironmentViewState, RelayEnvironmentWorkspace,
};
use codex_plus_manager_native::operation::OperationPhase;

type State = EnvironmentViewState<u8, &'static str, (), &'static str>;

fn environment(names: &[&str], revision: &str) -> RelayEnvironmentWorkspace<&'static str, ()> {
    RelayEnvironmentWorkspace {
        report: "report",
        conflicts: names
            .iter()
            .map(|name| EnvironmentConflict { name: name.to_string(), detail: () })
            .collect(),
        revision: revision.to_string(),
    }
}

#[test]
fn cleanup_selects_only_reported_openai_conflicts() {
    let mut state = State::new();
    let id = state.begin_inspection();
    assert!(state.apply_inspection_response(id, Ok(environment(&["OPENAI_API_KEY", "OPENAI_BASE_URL", "HTTP_PROXY"], "r1"))));
    assert!(!state.toggle_selection("HTTP_PROXY", true));
    assert!(!state.toggle_selection("OPENAI_ORG", true));
    assert!(state.toggle_selection("  OPENAI_API_KEY ", true));
    assert!(state.is_selected("OPENAI_API_KEY"));
    assert!(!state.toggle_selection("OPENAI_API_KEY", true));
    assert!(state.begin_cleanup().is_none());
    assert!(state.request_cleanup_confirmation());
    let (cleanup_id, request) = state.begin_cleanup().unwrap();
    assert_eq!(request.expected_revision, "r1");
    assert_eq!(request.names, vec!["OPENAI_API_KEY"]);
    assert_eq!(state.cleanup_phase, OperationPhase::Running);
    assert!(!state.request_cleanup_confirmation());
    assert!(state.apply_cleanup_response(
        cleanup_id,
        Ok(EnvironmentRemovalOutcome { workspace: environment(&["OPENAI_BASE_URL"], "r2"), details: "removed" }),
    ));
    assert!(state.selected_names().is_empty());
    assert_eq!(state.cleanup_outcome, Some("removed"));
    assert_eq!(state.workspace.as_ref().unwrap().revision, "r2");
}

#[test]
fn stale_inspection_answers_are_ignored() {
    let mut state = State::new();
    let first = state.begin_inspection();
    let second = state.begin_inspection();
    assert!(!state.apply_inspection_response(first, Err(EnvironmentFailureKind::WorkerStopped)));
    assert_eq!(state.inspection_phase, OperationPhase::Running);
    assert!(state.apply_inspection_response(second, Err(EnvironmentFailureKind::Service(2))));
    assert_eq!(state.inspection_error, Some(EnvironmentFailureKind::Service(2)));
    state.cancel_cleanup_confirmation();
    assert!(!state.cleanup_confirmation);
}

#[test]
fn cleanup_names_come_in_sorted_order() {
    let mut state = State::new();
    let id = state.begin_inspection();
    assert!(state.apply_inspection_response(
        id,
        Ok(environment(&["OPENAI_ORG_ID", "OPENAI_API_KEY", "OPENAI_BASE_URL"], "r1"))
    ));
    assert!(state.toggle_selection("OPENAI_ORG_ID", true));
    assert!(state.toggle_selection("OPENAI_BASE_URL", true));
    assert!(state.toggle_selection("OPENAI_API_KEY", true));
    assert_eq!(
        state.selected_names(),
        &vec!["OPENAI_API_KEY".to_owned(), "OPENAI_BASE_URL".to_owned(), "OPENAI_ORG_ID".to_owned()]
    );
    assert!(state.toggle_selection("OPENAI_BASE_URL", false));
    assert!(state.request_cleanup_confirmation());
    let (_, request) = state.begin_cleanup().unwrap();
    assert_eq!(request.names, vec!["OPENAI_API_KEY", "OPENAI_ORG_ID"]);
}

#[test]
fn worker_answers_report_fresh_data_only_when_current_and_successful() {
    let mut state = State::new();
    let stale = state.begin_inspection();
    let current = state.begin_inspection();
    assert!(!state.apply_response(EnvironmentResponse::Inspection {
        request_id: stale,
        result: Ok(environment(&["OPENAI_API_KEY"], "r0")),
    }));
    assert!(state.workspace.is_none());
    assert!(!state.apply_response(EnvironmentResponse::Inspection {
        request_id: current,
        result: Err(EnvironmentFailureKind::Service(4)),
    }));
    assert_eq!(state.inspection_phase, OperationPhase::Error);
    let again = state.begin_inspection();
    assert!(state.apply_response(EnvironmentResponse::Inspection {
        request_id: again,
        result: Ok(environment(&["OPENAI_API_KEY"], "r1")),
    }));
    assert_eq!(state.inspection_phase, OperationPhase::Ready);
    assert!(!state.apply_response(EnvironmentResponse::Cleanup {
        request_id: 7,
        result: Err(EnvironmentFailureKind::WorkerStopped),
    }));
    assert_eq!(state.cleanup_phase, OperationPhase::Idle);
}

#[test]
fn stopped_worker_fails_only_running_operations() {
    let mut state = State::new();
    state.begin_inspection();
    state.mark_worker_stopped();
    assert_eq!(state.inspection_phase, OperationPhase::Error);
    assert_eq!(state.inspection_error, Some(EnvironmentFailureKind::WorkerStopped));
    assert_eq!(state.cleanup_phase, OperationPhase::Idle);
    assert_eq!(state.cleanup_error, None);
}
