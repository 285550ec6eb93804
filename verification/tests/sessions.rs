use codex_plus_manager_native::operation::OperationPhase;
use codex_plus_manager_native::session_text::{
    delete_count_text, delete_now_text, more_sessions_text, no_backup_text, preview_prefix,
    provider_target_confirmation_text, repair_now_text, select_session_label,
};
use codex_plus_manager_native::sessions::{
    DeleteConfirmation, ProviderSyncOutcome, ProviderSyncWorkspace, SessionDeleteBatchOutcome,
    SessionFailureKind, SessionFilter, SessionResponse, SessionSummary, SessionViewState,
    SessionWorkspace,
};
use codex_plus_manager_native::i18n::Locale;

type State = SessionViewState<u8, u8, &'static str, &'static str>;

fn session(id: &str, title: &str, archived: bool) -> SessionSummary {
    SessionSummary {
        id: id.to_string(),
        title: title.to_string(),
        cwd: format!("C:/work/{id}"),
        model_provider: "openai".to_string(),
        source_db_paths: vec![format!("C:/db/{id}.sqlite")],
        archived,
        revision: format!("rev-{id}"),
    }
}

fn workspace(sessions: Vec<SessionSummary>) -> SessionWorkspace {
    SessionWorkspace { sessions }
}

fn loaded(sessions: Vec<SessionSummary>) -> State {
    let mut state = State::new();
    let id = state.begin_workspace_refresh();
    assert!(state.apply_workspace_response(id, Ok(workspace(sessions))));
    state
}

fn listed_ids(state: &State) -> Vec<String> {
    state.filtered_sessions().iter().map(|s| s.id.clone()).collect()
}

#[test]
fn delete_confirmation_counts_previews() {
    let confirmation = DeleteConfirmation {
        session_ids: vec!["a".into(), "b".into(), "c".into()],
        previews: vec!["A".into()],
    };
    assert_eq!(confirmation.count(), 3);
    assert_eq!(confirmation.remaining_preview_count(), 2);
    let over = DeleteConfirmation { session_ids: vec![], previews: vec!["x".into()] };
    assert_eq!(over.remaining_preview_count(), 0);
}

#[test]
fn filter_and_search_select_sessions_case_insensitively() {
    let mut state = loaded(vec![
        session("one", "Fix Parser", false),
        session("two", "Write docs", true),
        session("three", "parser cleanup", false),
    ]);
    assert_eq!(listed_ids(&state), vec!["one", "two", "three"]);
    state.set_filter(SessionFilter::Active);
    assert_eq!(listed_ids(&state), vec!["one", "three"]);
    state.set_filter(SessionFilter::Archived);
    assert_eq!(listed_ids(&state), vec!["two"]);
    state.set_filter(SessionFilter::All);
    state.set_query("  PARSER ".to_string());
    assert_eq!(listed_ids(&state), vec!["one", "three"]);
    state.set_query("two.sqlite".to_string());
    assert_eq!(listed_ids(&state), vec!["two"]);
    assert_eq!(state.active_count(), 2);
    assert_eq!(state.archived_count(), 1);
}

#[test]
fn pages_hold_fifty_sessions_and_page_is_clamped() {
    let sessions: Vec<SessionSummary> =
        (0..120).map(|i| session(&format!("s{i:03}"), "t", false)).collect();
    let mut state = loaded(sessions);
    assert_eq!(state.page_count(), 3);
    assert_eq!(state.page_sessions().len(), 50);
    assert!(state.set_page(7));
    assert_eq!(state.page, 2);
    assert_eq!(state.page_sessions().len(), 20);
    assert_eq!(state.page_sessions()[0].id, "s100");
    assert!(!state.set_page(2));
    state.set_query("s00".to_string());
    assert_eq!(state.page, 0);
    assert_eq!(state.page_count(), 1);
    let empty = State::new();
    assert_eq!(empty.page_count(), 1);
    assert!(empty.page_sessions().is_empty());
}

#[test]
fn selection_only_takes_known_sessions() {
    let mut state = loaded(vec![session("a", "A", false), session("b", "B", false)]);
    assert!(state.set_selected("a", true));
    assert!(!state.set_selected("a", true));
    assert!(!state.set_selected("zzz", true));
    assert!(state.select_all_filtered());
    assert!(!state.select_all_filtered());
    assert_eq!(state.selected_ids.len(), 2);
    assert!(state.set_selected("b", false));
    assert!(state.clear_selection());
    assert!(!state.clear_selection());
}

#[test]
fn delete_flow_confirms_selected_sessions_and_installs_the_new_workspace() {
    let mut state = loaded(vec![
        session("a", "  ", false),
        session("b", "Bravo", false),
        session("c", "Charlie", false),
    ]);
    assert!(!state.request_delete());
    state.set_selected("c", true);
    state.set_selected("a", true);
    assert!(state.request_delete());
    let confirmation = state.delete_confirmation.clone().unwrap();
    assert_eq!(confirmation.session_ids, vec!["a", "c"]);
    assert_eq!(confirmation.previews, vec!["a", "Charlie"]);
    assert!(!state.request_delete());

    let (request_id, request) = state.confirm_delete().unwrap();
    assert_eq!(request_id, 1);
    assert_eq!(request.confirmed_ids, vec!["a", "c"]);
    assert_eq!(request.selections[1].id, "c");
    assert_eq!(request.selections[1].expected_revision, "rev-c");
    assert_eq!(state.delete_phase, OperationPhase::Running);
    assert!(!state.set_selected("b", true));

    assert!(!state.apply_delete_response(request_id + 1, Err(SessionFailureKind::WorkerStopped)));
    assert!(state.apply_delete_response(
        request_id,
        Ok(SessionDeleteBatchOutcome { workspace: workspace(vec![session("b", "Bravo", false)]), report: "ok" }),
    ));
    assert_eq!(state.delete_phase, OperationPhase::Ready);
    assert_eq!(state.delete_outcome, Some("ok"));
    assert!(state.selected_ids.is_empty());
    assert_eq!(state.current_workspace_request_id, 2);
    assert_eq!(listed_ids(&state), vec!["b"]);
}

#[test]
fn stale_delete_confirmation_is_dropped() {
    let mut state = loaded(vec![session("a", "A", false), session("b", "B", false)]);
    state.set_selected("a", true);
    assert!(state.request_delete());
    assert!(state.cancel_delete());
    assert!(!state.cancel_delete());
    assert!(state.request_delete());
    state.delete_confirmation.as_mut().unwrap().session_ids = vec!["b".to_string()];
    assert!(state.confirm_delete().is_none());
    assert!(state.delete_confirmation.is_none());
}

#[test]
fn provider_sync_requires_confirmation_of_the_offered_target() {
    let mut state = State::new();
    let id = state.begin_provider_workspace_refresh().unwrap();
    assert!(state.apply_provider_workspace_response(
        id,
        Ok(ProviderSyncWorkspace {
            target_ids: vec!["openai".into(), "relay".into()],
            selected_target: "openai".into(),
            revision: "r1".into(),
        }),
    ));
    assert_eq!(state.selected_provider_target, "openai");
    assert!(!state.set_provider_target("unknown".to_string()));
    assert!(state.set_provider_target("relay".to_string()));
    assert!(state.request_provider_run_confirmation());
    assert!(state.begin_provider_run().is_none());
    let (run_id, request) = state.confirm_provider_run().unwrap();
    assert_eq!(request.target_provider, "relay");
    assert_eq!(request.confirmed_target_provider, "relay");
    assert!(state.begin_set_auto_repair(true).is_none());
    assert!(state.apply_provider_run_response(
        run_id,
        Ok(ProviderSyncOutcome {
            workspace: ProviderSyncWorkspace {
                target_ids: vec!["relay".into()],
                selected_target: "relay".into(),
                revision: "r2".into(),
            },
            report: "synced",
        }),
    ));
    let (repair_id, repair) = state.begin_set_auto_repair(true).unwrap();
    assert_eq!(repair.expected_revision, "r2");
    assert!(repair.enabled);
    assert!(state.apply_auto_repair_response(repair_id, Err(SessionFailureKind::Service(3))));
    assert_eq!(state.auto_repair_error, Some(SessionFailureKind::Service(3)));
}

#[test]
fn stopped_worker_fails_running_operations_and_blocks_mutations() {
    let mut state = loaded(vec![session("a", "A", false)]);
    state.begin_workspace_refresh();
    assert!(state.mutations_enabled());
    assert_eq!(state.worker_failure(), None);
    state.mark_worker_stopped();
    assert_eq!(state.workspace_phase, OperationPhase::Error);
    assert_eq!(state.workspace_error, Some(SessionFailureKind::WorkerStopped));
    assert!(!state.mutations_enabled());
    assert_eq!(state.worker_failure(), Some(SessionFailureKind::WorkerStopped));
    state.set_selected("a", true);
    assert!(!state.request_delete());
    assert!(state.begin_provider_workspace_refresh().is_none());
}

#[test]
fn session_dialog_texts_follow_locale() {
    assert_eq!(delete_count_text(Locale::En, 3), "Delete 3 selected sessions?");
    assert_eq!(delete_count_text(Locale::ZhCn, 12), "删除选中的 12 个会话？");
    assert_eq!(more_sessions_text(Locale::En, 0), "0 more sessions");
    assert_eq!(more_sessions_text(Locale::ZhCn, 105), "另有 105 个会话");
    assert_eq!(select_session_label(Locale::En, "abc"), "Select session abc");
    assert_eq!(select_session_label(Locale::ZhCn, "abc"), "选择会话 abc");
    assert_eq!(provider_target_confirmation_text(Locale::En, "relay"), "Target provider: relay");
    assert_eq!(provider_target_confirmation_text(Locale::ZhCn, "relay"), "目标供应商: relay");
    assert_eq!(delete_now_text(Locale::En), "Delete now");
    assert_eq!(preview_prefix(Locale::ZhCn), "预览");
    assert_eq!(repair_now_text(Locale::En), "Repair now");
    assert_eq!(no_backup_text(Locale::ZhCn), "无");
}

#[test]
fn session_worker_answers_report_fresh_data_only_when_current_and_successful() {
    let mut state = State::new();
    let stale = state.begin_workspace_refresh();
    let current = state.begin_workspace_refresh();
    assert!(!state.apply_response(SessionResponse::SessionsLoaded {
        request_id: stale,
        result: Ok(workspace(vec![session("old", "Old", false)])),
    }));
    assert!(state.workspace.is_none());
    assert!(state.apply_response(SessionResponse::SessionsLoaded {
        request_id: current,
        result: Ok(workspace(vec![session("one", "One", false)])),
    }));
    assert_eq!(state.workspace_phase, OperationPhase::Ready);
    assert!(!state.apply_response(SessionResponse::ProviderSyncLoaded {
        request_id: state.current_provider_workspace_request_id,
        result: Err(SessionFailureKind::Service(3)),
    }));
    assert_eq!(state.provider_workspace_phase, OperationPhase::Error);
    assert_eq!(state.provider_workspace_error, Some(SessionFailureKind::Service(3)));
    assert!(!state.apply_response(SessionResponse::AutoRepairSaved {
        request_id: state.current_auto_repair_request_id + 1,
        result: Err(SessionFailureKind::WorkerStopped),
    }));
    assert_eq!(state.auto_repair_phase, OperationPhase::Idle);
}
