use codex_plus_manager_native::desktop_host::{
    check_read_size, classify_commit, join_path, plan_migration, tray_labels, DesktopHostEffect,
    DesktopHostEvent, DesktopHostLifecycle, DesktopHostPhase, ManagerActivation, MigrationPlan,
    NativePersistencePaths, PreferenceMigration, PreferenceMigrationError, MAX_PREFERENCE_BYTES,
};
use codex_plus_manager_native::i18n::Locale;

#[test]
fn desktop_host_close_and_minimize_hide_without_quitting() {
    let mut lifecycle = DesktopHostLifecycle::default();

    assert_eq!(
        lifecycle.reduce(DesktopHostEvent::CloseRequested),
        [DesktopHostEffect::CancelClose, DesktopHostEffect::Hide]
    );
    assert_eq!(
        lifecycle.reduce(DesktopHostEvent::Minimized(true)),
        [DesktopHostEffect::Hide]
    );
    assert!(lifecycle.reduce(DesktopHostEvent::Minimized(true)).is_empty());
    assert_eq!(lifecycle.phase(), DesktopHostPhase::Running);
}

#[test]
fn desktop_host_typed_activations_restore_focus_and_keep_payload_out_of_events() {
    let mut lifecycle = DesktopHostLifecycle::default();

    assert_eq!(
        lifecycle.reduce(DesktopHostEvent::Activation(ManagerActivation::Show)),
        [
            DesktopHostEffect::Show,
            DesktopHostEffect::Restore,
            DesktopHostEffect::Focus,
        ]
    );
    assert_eq!(
        lifecycle.reduce(DesktopHostEvent::Activation(
            ManagerActivation::ReloadPendingProviderImport
        )),
        [
            DesktopHostEffect::ReloadPendingProviderImport,
            DesktopHostEffect::Show,
            DesktopHostEffect::Restore,
            DesktopHostEffect::Focus,
        ]
    );
    assert_eq!(
        lifecycle.reduce(DesktopHostEvent::Activation(ManagerActivation::ShowUpdate)),
        [
            DesktopHostEffect::ShowUpdate,
            DesktopHostEffect::Show,
            DesktopHostEffect::Restore,
            DesktopHostEffect::Focus,
        ]
    );
}

#[test]
fn desktop_host_quit_is_explicit_exactly_once_and_does_not_cancel_exit_close() {
    let mut lifecycle = DesktopHostLifecycle::default();

    assert_eq!(
        lifecycle.reduce(DesktopHostEvent::TrayQuit),
        [DesktopHostEffect::RequestExit]
    );
    assert_eq!(lifecycle.phase(), DesktopHostPhase::Quitting);
    assert!(lifecycle.reduce(DesktopHostEvent::TrayQuit).is_empty());
    assert!(lifecycle.reduce(DesktopHostEvent::CloseRequested).is_empty());
    assert!(lifecycle
        .reduce(DesktopHostEvent::Activation(ManagerActivation::Show))
        .is_empty());
    lifecycle.mark_exited();
    assert_eq!(lifecycle.phase(), DesktopHostPhase::Exited);
}

#[test]
fn desktop_host_persistence_uses_canonical_subdirectory_and_legacy_additive_path() {
    let root = "/tmp/codex-plus-state".to_string();

    let paths = NativePersistencePaths::for_state_override(
        Some(root.clone()),
        "/unused/default".to_string(),
        None,
    );

    assert_eq!(paths.canonical(), "/tmp/codex-plus-state/manager-ui/app.ron");
    assert_eq!(paths.legacy().unwrap(), "/tmp/codex-plus-state/app.ron");
}

#[test]
fn desktop_host_tray_labels_follow_native_locale() {
    assert_eq!(tray_labels(Locale::ZhCn), ("显示窗口", "退出"));
    assert_eq!(tray_labels(Locale::En), ("Show", "Quit"));
}

#[test]
fn persistence_defaults_use_the_platform_state_root_and_legacy_storage() {
    let paths = NativePersistencePaths::for_state_override(
        None,
        "/home/user/.codex-plus".to_string(),
        Some("/home/user/.local/share/legacy".to_string()),
    );
    assert_eq!(paths.state_root(), "/home/user/.codex-plus");
    assert_eq!(paths.canonical(), "/home/user/.codex-plus/manager-ui/app.ron");
    assert_eq!(paths.legacy(), Some("/home/user/.local/share/legacy/app.ron"));

    let without_legacy =
        NativePersistencePaths::for_state_override(None, "/state".to_string(), None);
    assert_eq!(without_legacy.legacy(), None);
}

#[test]
fn join_path_inserts_exactly_one_separator() {
    assert_eq!(join_path("/a", "b", '/'), "/a/b");
    assert_eq!(join_path("/a/", "b", '/'), "/a/b");
    assert_eq!(join_path("", "b", '/'), "b");
    assert_eq!(join_path("/a", "/b", '/'), "/b");
}

#[test]
fn join_path_uses_the_platform_separator() {
    assert_eq!(join_path("C:\\state", "app.ron", '\\'), "C:\\state\\app.ron");
    assert_eq!(join_path("C:\\state\\", "app.ron", '\\'), "C:\\state\\app.ron");
    assert_eq!(join_path("C:/state/", "app.ron", '\\'), "C:/state/app.ron");
    assert_eq!(join_path("C:\\state", "\\other", '\\'), "\\other");
    assert_eq!(join_path("/a", "b", std::path::MAIN_SEPARATOR), std::path::Path::new("/a").join("b").to_str().unwrap());
}

#[test]
fn persistence_paths_follow_the_separator_they_were_joined_with() {
    let windows = NativePersistencePaths::for_state_root_with_separator("C:\\state".to_string(), '\\');
    assert_eq!(windows.separator(), '\\');
    assert_eq!(windows.canonical(), "C:\\state\\manager-ui\\app.ron");
    assert_eq!(windows.legacy(), Some("C:\\state\\app.ron"));
    let native = NativePersistencePaths::for_state_root("/s".to_string());
    assert_eq!(native.separator(), std::path::MAIN_SEPARATOR);
    assert_eq!(
        std::path::Path::new(native.canonical()),
        std::path::Path::new("/s").join("manager-ui").join("app.ron")
    );
}

#[test]
fn migration_plan_prefers_canonical_and_rejects_oversized_sources() {
    assert_eq!(
        plan_migration(true, true, Some(1)),
        Ok(MigrationPlan::Finished(PreferenceMigration::CanonicalAlreadyExists))
    );
    assert_eq!(
        plan_migration(false, false, None),
        Ok(MigrationPlan::Finished(PreferenceMigration::NoLegacyPreferences))
    );
    assert_eq!(
        plan_migration(false, true, None),
        Err(PreferenceMigrationError::ReadFailed)
    );
    assert_eq!(
        plan_migration(false, true, Some(MAX_PREFERENCE_BYTES + 1)),
        Err(PreferenceMigrationError::SourceTooLarge)
    );
    assert_eq!(
        plan_migration(false, true, Some(MAX_PREFERENCE_BYTES)),
        Ok(MigrationPlan::CopyLegacy)
    );
    assert_eq!(check_read_size(4 * 1024 * 1024), Ok(()));
    assert_eq!(
        check_read_size(4 * 1024 * 1024 + 1),
        Err(PreferenceMigrationError::SourceTooLarge)
    );
}

#[test]
fn migration_commit_reports_races_and_failures() {
    assert_eq!(classify_commit(true, true), Ok(PreferenceMigration::Migrated));
    assert_eq!(
        classify_commit(false, true),
        Ok(PreferenceMigration::CanonicalAlreadyExists)
    );
    assert_eq!(
        classify_commit(false, false),
        Err(PreferenceMigrationError::CommitFailed)
    );
}

#[test]
fn minimize_hides_again_after_restore_and_show() {
    let mut lifecycle = DesktopHostLifecycle::default();
    assert_eq!(lifecycle.reduce(DesktopHostEvent::Minimized(true)), [DesktopHostEffect::Hide]);
    assert!(lifecycle.reduce(DesktopHostEvent::Minimized(false)).is_empty());
    assert_eq!(lifecycle.reduce(DesktopHostEvent::Minimized(true)), [DesktopHostEffect::Hide]);
    assert_eq!(
        lifecycle.reduce(DesktopHostEvent::TrayShow),
        [DesktopHostEffect::Show, DesktopHostEffect::Restore, DesktopHostEffect::Focus]
    );
    assert_eq!(lifecycle.reduce(DesktopHostEvent::Minimized(true)), [DesktopHostEffect::Hide]);
}

#[test]
fn exit_is_requested_once_even_with_the_loop_ending_in_between() {
    let mut lifecycle = DesktopHostLifecycle::default();
    let mut exits = 0;
    for effects in [
        lifecycle.reduce(DesktopHostEvent::CloseRequested),
        lifecycle.reduce(DesktopHostEvent::TrayQuit),
        lifecycle.reduce(DesktopHostEvent::TrayQuit),
    ] {
        exits += effects.iter().filter(|e| **e == DesktopHostEffect::RequestExit).count();
    }
    lifecycle.mark_exited();
    assert_eq!(lifecycle.phase(), DesktopHostPhase::Exited);
    let after = lifecycle.reduce(DesktopHostEvent::TrayQuit);
    exits += after.iter().filter(|e| **e == DesktopHostEffect::RequestExit).count();
    assert_eq!(exits, 1);
    assert_eq!(lifecycle.phase(), DesktopHostPhase::Exited);
}
