use codex_plus_manager_native::overview::{
    AppState, OverviewFailureKind, OverviewPhase, OverviewViewState, Route,
};

#[derive(Debug, Clone, PartialEq)]
struct Snapshot {
    codex_version: Option<String>,
}

fn snapshot(version: &str) -> Snapshot {
    Snapshot { codex_version: Some(version.to_owned()) }
}

#[test]
fn refresh_failure_keeps_last_good_snapshot_and_ignores_stale_results() {
    let first = snapshot("first");
    let replacement = snapshot("replacement");
    let mut state: OverviewViewState<Snapshot> = OverviewViewState::default();

    let first_id = state.begin_refresh();
    assert_eq!(state.phase, OverviewPhase::Loading);
    assert!(state.apply_response(first_id, Ok(first.clone())));
    assert_eq!(state.phase, OverviewPhase::Ready);

    let refresh_id = state.begin_refresh();
    assert_eq!(state.phase, OverviewPhase::Refreshing);
    assert_eq!(state.snapshot.as_ref().unwrap(), &first);

    assert!(!state.apply_response(first_id, Ok(replacement)));
    assert_eq!(state.snapshot.as_ref().unwrap(), &first);

    assert!(state.apply_response(refresh_id, Err(OverviewFailureKind::LoadFailed)));
    assert_eq!(state.phase, OverviewPhase::Error);
    assert_eq!(state.error, Some(OverviewFailureKind::LoadFailed));
    assert_eq!(state.snapshot.as_ref().unwrap(), &first);
}

#[test]
fn initial_failure_has_no_snapshot_and_current_success_clears_error() {
    let mut state: OverviewViewState<Snapshot> = OverviewViewState::default();

    let failed_id = state.begin_refresh();
    assert!(state.apply_response(failed_id, Err(OverviewFailureKind::WorkerStopped)));
    assert_eq!(state.phase, OverviewPhase::Error);
    assert_eq!(state.snapshot, None);
    assert_eq!(state.error, Some(OverviewFailureKind::WorkerStopped));

    let retry_id = state.begin_refresh();
    assert_eq!(state.phase, OverviewPhase::Loading);
    assert_eq!(state.error, Some(OverviewFailureKind::WorkerStopped));

    assert!(state.apply_response(retry_id, Ok(snapshot("recovered"))));
    assert_eq!(state.phase, OverviewPhase::Ready);
    assert_eq!(state.error, None);
    assert_eq!(
        state.snapshot.as_ref().unwrap().codex_version.as_deref(),
        Some("recovered")
    );
}

#[test]
fn routes_default_to_overview() {
    assert_eq!(Route::default(), Route::Overview);
    let state: OverviewViewState<Snapshot> = OverviewViewState::default();
    assert_eq!(state.phase, OverviewPhase::Idle);
    assert_eq!(state.current_request_id, 0);
}

#[test]
fn app_state_defaults_to_overview_and_supports_only_milestone_routes() {
    let mut app: AppState<Snapshot, ()> = AppState::default();
    assert_eq!(app.route, Route::Overview);

    app.route = Route::About;
    assert_eq!(app.route, Route::About);
}
