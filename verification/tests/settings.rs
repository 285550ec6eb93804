use codex_plus_manager_native::overview::Route;
use codex_plus_manager_native::path_picker::{PathPickerResponse, PathPickerTarget};
use codex_plus_manager_native::settings::{
    join_lines, split_lines, DirtySettingsGroups, ExtraArgsDraft, ExtraArgsSettings,
    ImageOverlayFitMode, ImageOverlaySettings, ManagerSettingsWorkspace, RevisionedExtraArgs,
    RevisionedImageOverlaySettings, RevisionedStepwiseSettings, SafeSettingsGroup,
    SettingsFailure, SettingsFailureKind, SettingsLoadPhase, SettingsOperationPhase,
    SettingsResetRequest, SettingsTab, SettingsTransition, SettingsViewState,
    StepwiseSecretChange, StepwiseSettings,
};

type State = SettingsViewState<&'static str>;

fn stepwise(revision: u64, model: &str, key_configured: bool) -> RevisionedStepwiseSettings {
    RevisionedStepwiseSettings {
        revision,
        settings: StepwiseSettings {
            enabled: true,
            direct_send: false,
            base_url: "https://api.example".to_owned(),
            api_key_configured: key_configured,
            api_key_env: "OPENAI_API_KEY".to_owned(),
            api_key_env_configured: true,
            model: model.to_owned(),
            max_items: 3,
            max_input_chars: 8000,
            max_output_tokens: 1000,
            timeout_ms: 20000,
        },
    }
}

fn workspace(revision: u64, model: &str, path: &str, args: &[&str]) -> ManagerSettingsWorkspace {
    ManagerSettingsWorkspace {
        stepwise: stepwise(revision, model, true),
        image_overlay: RevisionedImageOverlaySettings {
            revision,
            settings: ImageOverlaySettings {
                enabled: true,
                path: path.to_owned(),
                opacity: 35,
                fit_mode: ImageOverlayFitMode::Fit,
            },
        },
        extra_args: RevisionedExtraArgs {
            revision,
            settings: ExtraArgsSettings { args: args.iter().map(|a| a.to_string()).collect() },
        },
    }
}

fn loaded() -> State {
    let mut state = State::default();
    let id = state.begin_load();
    assert!(state.apply_load_response(id, Ok(workspace(1, "gpt", "C:/bg.png", &["--a", "--b"]))));
    state
}

#[test]
fn settings_defaults_before_loading() {
    let state = State::default();
    assert_eq!(state.tab, SettingsTab::Stepwise);
    assert_eq!(state.load_phase, SettingsLoadPhase::Idle);
    assert_eq!(state.stepwise.draft().api_key_env, "OPENAI_API_KEY");
    assert_eq!(state.stepwise.draft().max_input_chars, 8000);
    assert_eq!(state.stepwise.draft().max_output_tokens, 1000);
    assert_eq!(state.stepwise.draft().timeout_ms, 20000);
    assert_eq!(state.image_overlay.draft().opacity, 35);
    assert_eq!(state.image_overlay.draft().fit_mode, ImageOverlayFitMode::Fit);
    assert!(!state.any_dirty());
    assert_eq!(state.dirty_groups().count(), 0);
}

#[test]
fn lines_follow_std_line_splitting() {
    let lines = split_lines("--a\r\n\n--b\n");
    assert_eq!(lines, vec!["--a".to_owned(), String::new(), "--b".to_owned()]);
    assert_eq!(split_lines(""), Vec::<String>::new());
    assert_eq!(split_lines("x\r"), vec!["x\r".to_owned()]);
    assert_eq!(join_lines(&vec!["--a".to_owned(), "--b".to_owned()]), "--a\n--b");
    assert_eq!(join_lines(&Vec::new()), "");
    for text in ["a\nb", "a\r\nb\n\nc", "\n", "one", ""] {
        let expected: Vec<String> = text.lines().map(str::to_owned).collect();
        assert_eq!(split_lines(text), expected);
    }
}

#[test]
fn argument_count_skips_empty_lines() {
    let draft = ExtraArgsDraft { text: "--one\n\n--two\r\n\n".to_owned() };
    assert_eq!(draft.argument_count(), 2);
    assert_eq!(ExtraArgsDraft { text: String::new() }.argument_count(), 0);
    assert_eq!(ExtraArgsDraft { text: "x".to_owned() }.argument_count(), 1);
}

#[test]
fn dirty_groups_count_and_contain() {
    let groups = DirtySettingsGroups { stepwise: true, image_overlay: false, extra_args: true };
    assert_eq!(groups.count(), 2);
    assert!(groups.contains(SafeSettingsGroup::Stepwise));
    assert!(!groups.contains(SafeSettingsGroup::ImageOverlay));
    assert!(groups.contains(SafeSettingsGroup::ExtraArgs));
    assert!(groups.any());
    assert!(!DirtySettingsGroups::default().any());
}

#[test]
fn load_installs_every_group_and_joins_arguments() {
    let state = loaded();
    assert_eq!(state.load_phase, SettingsLoadPhase::Ready);
    assert_eq!(state.stepwise.revision(), Some(1));
    assert_eq!(state.stepwise.draft().model, "gpt");
    assert_eq!(state.image_overlay.draft().path, "C:/bg.png");
    assert_eq!(state.extra_args.draft().text, "--a\n--b");
    assert!(!state.any_dirty());
}

#[test]
fn reload_spares_edited_groups() {
    let mut state = loaded();
    state.edit_stepwise_model("edited".to_owned());
    let id = state.begin_load();
    assert_eq!(state.load_phase, SettingsLoadPhase::Refreshing);
    assert!(state.apply_load_response(id, Ok(workspace(2, "stored", "D:/new.png", &["--c"]))));
    assert_eq!(state.stepwise.draft().model, "edited");
    assert_eq!(state.stepwise.revision(), Some(1));
    assert_eq!(state.image_overlay.draft().path, "D:/new.png");
    assert_eq!(state.extra_args.draft().text, "--c");
    assert!(!state.apply_load_response(id - 1, Err(SettingsFailureKind::SettingsReadFailed)));
}

#[test]
fn stepwise_save_sends_the_typed_key_and_drops_it_when_stored() {
    let mut state = loaded();
    state.edit_secret_replacement("sk-new".to_owned());
    assert!(state.stepwise.is_dirty());
    let (id, request) = state.begin_stepwise_save().unwrap();
    assert_eq!(request.expected_revision, 1);
    assert!(matches!(&request.secret_change, StepwiseSecretChange::Replace(key) if key == "sk-new"));
    assert_eq!(request.settings.model, "gpt");
    assert!(state.begin_stepwise_save().is_none());
    assert!(state.apply_stepwise_save_response(id, Ok(workspace(2, "gpt", "C:/bg.png", &["--a", "--b"]))));
    assert_eq!(state.stepwise.operation.phase, SettingsOperationPhase::Ready);
    assert_eq!(state.stepwise.draft().secret_replacement(), "");
    assert!(!state.stepwise.is_dirty());
    assert_eq!(state.stepwise.revision(), Some(2));
}

#[test]
fn stepwise_edit_during_save_survives_without_the_sent_key() {
    let mut state = loaded();
    state.edit_secret_replacement("sk-new".to_owned());
    let (id, _) = state.begin_stepwise_save().unwrap();
    state.edit_stepwise_model("later".to_owned());
    assert!(state.apply_stepwise_save_response(id, Ok(workspace(2, "gpt", "C:/bg.png", &[]))));
    assert_eq!(state.stepwise.draft().model, "later");
    assert_eq!(state.stepwise.draft().secret_replacement(), "");
    assert!(state.stepwise.is_dirty());
}

#[test]
fn stepwise_save_without_key_keeps_the_stored_one() {
    let mut state = loaded();
    state.edit_stepwise_timeout_ms(5000);
    let (id, request) = state.begin_stepwise_save().unwrap();
    assert!(matches!(request.secret_change, StepwiseSecretChange::Keep));
    assert_eq!(request.settings.timeout_ms, 5000);
    let failure = SettingsFailure::with_workspace(
        SettingsFailureKind::SettingsConflict,
        SafeSettingsGroup::Stepwise,
        workspace(3, "gpt", "C:/bg.png", &["--a", "--b"]),
    );
    assert!(state.apply_stepwise_save_response(id, Err(failure)));
    assert!(state.stepwise.conflict_visible());
    assert_eq!(state.stepwise.operation.error, Some(SettingsFailureKind::SettingsConflict));
    assert_eq!(state.stepwise.draft().timeout_ms, 5000);
    assert_eq!(state.stepwise.revision(), Some(3));
    state.edit_stepwise_enabled(false);
    assert!(!state.stepwise.conflict_visible());
}

#[test]
fn stepwise_test_reports_outcome_and_blocks_saves() {
    let mut state = loaded();
    state.edit_stepwise_max_items(5);
    let (id, request) = state.begin_stepwise_test().unwrap();
    assert_eq!(request.settings.max_items, 5);
    assert!(state.begin_stepwise_save().is_none());
    assert!(state.begin_stepwise_test().is_none());
    assert!(state.apply_stepwise_test_response(id, Ok("reachable")));
    assert_eq!(state.stepwise.test_outcome, Some("reachable"));
    assert_eq!(state.stepwise.test.phase, SettingsOperationPhase::Ready);
    let (id, _) = state.begin_stepwise_test().unwrap();
    assert!(state.stepwise.test_outcome.is_none());
    assert!(state.apply_stepwise_test_response(
        id,
        Err(SettingsFailure::new(SettingsFailureKind::StepwiseTimeout, Some(SafeSettingsGroup::Stepwise)))
    ));
    assert_eq!(state.stepwise.test.error, Some(SettingsFailureKind::StepwiseTimeout));
}

#[test]
fn image_and_argument_saves_send_their_drafts() {
    let mut state = loaded();
    state.edit_image_opacity(80);
    state.edit_image_fit_mode(ImageOverlayFitMode::Fill);
    let (image_id, image) = state.begin_image_save().unwrap();
    assert_eq!(image.settings.opacity, 80);
    assert_eq!(image.settings.fit_mode, ImageOverlayFitMode::Fill);
    state.edit_extra_args("--x\n\n--y".to_owned());
    let (args_id, args) = state.begin_extra_args_save().unwrap();
    assert_eq!(args.settings.args, vec!["--x".to_owned(), String::new(), "--y".to_owned()]);
    assert!(state.begin_extra_args_save().is_none());

    let mut stored = workspace(2, "gpt", "C:/bg.png", &["--x", "", "--y"]);
    stored.image_overlay.settings.opacity = 80;
    stored.image_overlay.settings.fit_mode = ImageOverlayFitMode::Fill;
    assert!(state.apply_image_save_response(image_id, Ok(stored)));
    assert!(!state.image_overlay.is_dirty());
    // The arguments are still being saved, so the image answer leaves them alone.
    assert_eq!(state.extra_args.operation.phase, SettingsOperationPhase::Running);
    let stored = workspace(3, "gpt", "C:/bg.png", &["--x", "", "--y"]);
    assert!(state.apply_extra_args_save_response(args_id, Ok(stored)));
    assert!(!state.extra_args.is_dirty());
    assert_eq!(state.extra_args.revision(), Some(3));
}

#[test]
fn resets_wait_for_confirmation_and_use_the_group_revision() {
    let mut state = loaded();
    assert!(state.request_reset(SafeSettingsGroup::ImageOverlay));
    assert_eq!(state.reset_confirmation_group(), Some(SafeSettingsGroup::ImageOverlay));
    assert!(!state.request_reset(SafeSettingsGroup::ExtraArgs));
    state.edit_image_opacity(10);
    assert!(state.begin_image_save().is_none());
    state.cancel_reset();
    assert!(state.request_reset(SafeSettingsGroup::ImageOverlay));
    let (id, request) = state.confirm_reset().unwrap();
    match request {
        SettingsResetRequest::Image(reset) => {
            assert_eq!(reset.expected_revision, 1);
            assert_eq!(reset.confirmed_group, SafeSettingsGroup::ImageOverlay);
        }
        _ => panic!("wrong reset group"),
    }
    assert_eq!(state.reset_confirmation_group(), None);
    assert!(state.apply_image_reset_response(id, Ok(workspace(2, "gpt", "", &["--a", "--b"]))));
    // Nothing was edited while the reset ran, so the stored defaults replace the draft.
    assert_eq!(state.image_overlay.draft().opacity, 35);
    assert_eq!(state.image_overlay.draft().path, "");
    assert!(!state.image_overlay.is_dirty());
    assert_eq!(state.image_overlay.revision(), Some(2));
}

#[test]
fn clearing_the_api_key_needs_confirmation() {
    let mut state = loaded();
    assert!(state.request_secret_clear());
    assert!(state.secret_clear_confirmation_visible());
    assert!(state.begin_stepwise_save().is_none());
    state.cancel_secret_clear();
    assert!(state.request_secret_clear());
    let (id, request) = state.confirm_secret_clear().unwrap();
    assert!(matches!(request.secret_change, StepwiseSecretChange::Clear(1)));
    assert_eq!(request.expected_revision, 1);
    assert!(state.confirm_secret_clear().is_none());
    assert!(state.apply_stepwise_save_response(id, Ok(workspace(2, "gpt", "C:/bg.png", &["--a", "--b"]))));

    let mut unconfigured = State::default();
    let id = unconfigured.begin_load();
    let mut stored = workspace(1, "gpt", "", &[]);
    stored.stepwise.settings.api_key_configured = false;
    assert!(unconfigured.apply_load_response(id, Ok(stored)));
    assert!(!unconfigured.request_secret_clear());
}

#[test]
fn image_picker_fills_the_overlay_path() {
    let mut state = loaded();
    let request = state.begin_image_picker().unwrap();
    assert_eq!(request.target, PathPickerTarget::SettingsOverlayImage);
    assert!(state.begin_image_picker().is_none());
    let response = PathPickerResponse {
        request_id: request.request_id,
        target: request.target,
        path: Some("D:/picked.png".to_owned()),
        error: None,
    };
    assert!(state.apply_picker_response(response));
    assert_eq!(state.image_overlay.draft().path, "D:/picked.png");
    assert!(state.image_overlay.is_dirty());
    assert!(!state.picker_pending());
}

#[test]
fn leaving_with_edits_lists_the_groups_and_discards_them() {
    let mut state = loaded();
    assert!(state.request_transition(SettingsTransition::Refresh));
    state.edit_extra_args("--z".to_owned());
    state.edit_stepwise_url("https://other".to_owned());
    assert!(!state.request_transition(SettingsTransition::Navigate(Route::Overview)));
    let groups = state.pending_dirty_groups().unwrap();
    assert_eq!(groups.count(), 2);
    assert!(groups.contains(SafeSettingsGroup::ExtraArgs));
    assert!(state.discard_confirmation_visible());
    assert_eq!(
        state.confirm_discard_transition(),
        Some(SettingsTransition::Navigate(Route::Overview))
    );
    assert!(!state.any_dirty());
    assert_eq!(state.extra_args.draft().text, "--a\n--b");
}

#[test]
fn stopped_worker_fails_everything_that_runs() {
    let mut state = loaded();
    state.edit_image_enabled(false);
    let (_, _) = state.begin_image_save().unwrap();
    let (_, _) = state.begin_stepwise_test().unwrap();
    let _ = state.begin_load();
    state.fail_running_operations();
    assert_eq!(state.load_phase, SettingsLoadPhase::Error);
    assert_eq!(state.load_error, Some(SettingsFailureKind::WorkerStopped));
    assert_eq!(state.image_overlay.operation.phase, SettingsOperationPhase::Error);
    assert_eq!(state.image_overlay.operation.error, Some(SettingsFailureKind::WorkerStopped));
    assert_eq!(state.stepwise.test.phase, SettingsOperationPhase::Error);
    assert!(!state.image_overlay.draft().enabled);
}

#[test]
fn from_workspace_shows_the_stored_settings() {
    let state = State::from_workspace(workspace(4, "m", "p", &["--q"]));
    assert_eq!(state.load_phase, SettingsLoadPhase::Ready);
    assert_eq!(state.stepwise.revision(), Some(4));
    assert_eq!(state.extra_args.draft().text, "--q");
    assert!(!state.any_dirty());
}

#[test]
fn image_edit_during_save_survives_the_answer() {
    let mut state = loaded();
    state.edit_image_opacity(60);
    let (id, _) = state.begin_image_save().unwrap();
    state.edit_image_path("E:/later.png".to_owned());
    let mut stored = workspace(2, "gpt", "C:/bg.png", &["--a", "--b"]);
    stored.image_overlay.settings.opacity = 60;
    assert!(state.apply_image_save_response(id, Ok(stored)));
    assert_eq!(state.image_overlay.draft().path, "E:/later.png");
    assert_eq!(state.image_overlay.draft().opacity, 60);
    assert!(state.image_overlay.is_dirty());
    assert_eq!(state.image_overlay.revision(), Some(2));
}

#[test]
fn dirty_groups_follow_each_group_own_edits() {
    let mut state = loaded();
    assert_eq!(state.dirty_groups().count(), 0);
    state.edit_secret_replacement("sk-new".to_owned());
    let groups = state.dirty_groups();
    assert_eq!(groups.stepwise, state.stepwise_group().is_dirty());
    assert_eq!(groups.image_overlay, state.image_overlay_group().is_dirty());
    assert_eq!(groups.extra_args, state.extra_args_group().is_dirty());
    assert!(groups.stepwise && !groups.image_overlay && !groups.extra_args);
    assert_eq!(groups.count(), 1);
}
