use codex_plus_manager_native::desktop_fixture::{
    apply_repair, apply_startup, repair_record, startup_record, DesktopFixtureError,
    DesktopIntegrationItemKind, DesktopRepairOperation, OwnedStringValueSnapshot, SignInSnapshot,
    StartupRegistrationOperation, WindowsRepairSnapshot,
};

const CANONICAL: &str = "CodexPlusPlus";
const LEGACY: &str = "CodexPlusPlusLegacy";

fn shortcut(kind: DesktopIntegrationItemKind) -> DesktopRepairOperation {
    DesktopRepairOperation::WriteShortcut {
        kind,
        target: "/fixture/codex-plus-plus-manager.exe".to_owned(),
        arguments: "--manager".to_owned(),
    }
}

#[test]
fn fixture_records_the_bounded_repair_and_sign_in_workflow() {
    let mut repair = WindowsRepairSnapshot {
        desktop_manager: None,
        start_menu_launcher: None,
        start_menu_manager: None,
        protocol_command: None,
    };
    let mut sign_in = SignInSnapshot {
        canonical_run: OwnedStringValueSnapshot::Absent,
        legacy_run: OwnedStringValueSnapshot::String("codex --debug-port 9229".to_owned()),
        legacy_shortcut: Some("legacy.lnk".to_owned()),
    };
    let mut record = String::new();
    for operation in [
        shortcut(DesktopIntegrationItemKind::DesktopManagerShortcut),
        shortcut(DesktopIntegrationItemKind::StartMenuLauncherShortcut),
        shortcut(DesktopIntegrationItemKind::StartMenuManagerShortcut),
        DesktopRepairOperation::WriteProtocol { command: "codex-plus-plus://%1".to_owned() },
    ] {
        record.push_str(&repair_record(&operation).unwrap());
        record.push('\n');
        apply_repair(&mut repair, &operation);
    }
    for operation in [
        StartupRegistrationOperation::SetRunValue { name: CANONICAL.to_owned(), value: "codex".to_owned() },
        StartupRegistrationOperation::DeleteRunValue { name: LEGACY.to_owned() },
        StartupRegistrationOperation::DeleteRunValue { name: CANONICAL.to_owned() },
        StartupRegistrationOperation::SetRunValue { name: CANONICAL.to_owned(), value: "codex".to_owned() },
    ] {
        record.push_str(startup_record(&operation, CANONICAL, LEGACY).unwrap());
        record.push('\n');
        apply_startup(&mut sign_in, &operation, CANONICAL, LEGACY);
    }
    assert_eq!(
        record,
        [
            "repair:desktop_manager_shortcut\n",
            "repair:start_menu_launcher_shortcut\n",
            "repair:start_menu_manager_shortcut\n",
            "repair:url_protocol\n",
            "startup:set_canonical\n",
            "startup:delete_legacy_run\n",
            "startup:delete_canonical\n",
            "startup:set_canonical\n",
        ]
        .concat()
    );
    assert_eq!(repair.desktop_manager.as_ref().unwrap().arguments, "--manager");
    assert!(repair.start_menu_launcher.is_some() && repair.start_menu_manager.is_some());
    assert_eq!(repair.protocol_command.as_deref(), Some("codex-plus-plus://%1"));
    assert!(matches!(&sign_in.canonical_run, OwnedStringValueSnapshot::String(v) if v == "codex"));
    assert!(matches!(sign_in.legacy_run, OwnedStringValueSnapshot::Absent));
    assert_eq!(sign_in.legacy_shortcut.as_deref(), Some("legacy.lnk"));
}

#[test]
fn fixture_refuses_effects_it_does_not_model() {
    assert_eq!(
        repair_record(&DesktopRepairOperation::RegisterMacosBundle).unwrap_err(),
        DesktopFixtureError::EffectFailed
    );
    assert!(repair_record(&shortcut(DesktopIntegrationItemKind::UrlProtocol)).is_err());
    assert!(startup_record(
        &StartupRegistrationOperation::SetRunValue { name: LEGACY.to_owned(), value: "x".to_owned() },
        CANONICAL,
        LEGACY
    )
    .is_err());
    assert!(startup_record(
        &StartupRegistrationOperation::DeleteRunValue { name: "Other".to_owned() },
        CANONICAL,
        LEGACY
    )
    .is_err());
    let mut sign_in = SignInSnapshot {
        canonical_run: OwnedStringValueSnapshot::Absent,
        legacy_run: OwnedStringValueSnapshot::Absent,
        legacy_shortcut: Some("legacy.lnk".to_owned()),
    };
    let operation = StartupRegistrationOperation::DeleteLegacyStartupShortcut;
    assert_eq!(
        startup_record(&operation, CANONICAL, LEGACY).unwrap(),
        "startup:delete_legacy_shortcut"
    );
    apply_startup(&mut sign_in, &operation, CANONICAL, LEGACY);
    assert!(sign_in.legacy_shortcut.is_none());
}
