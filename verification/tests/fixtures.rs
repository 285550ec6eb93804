use codex_plus_manager_native::fixtures::{
    resolve_desktop_integration_fixture, resolve_update_fixture_paths, FixtureConfigError,
    WINDOWS_NEEDS_REPAIR_LEGACY_FIXTURE,
};

#[test]
fn update_fixture_requires_all_paths_and_never_partially_falls_back() {
    assert!(resolve_update_fixture_paths(None, None, None, None)
        .unwrap()
        .is_none());
    let paths = resolve_update_fixture_paths(
        Some("metadata.json".to_string()),
        Some("asset.exe".to_string()),
        Some("launch.record".to_string()),
        Some("check.record".to_string()),
    )
    .unwrap()
    .unwrap();
    assert_eq!(paths.asset, "asset.exe");
    assert!(
        resolve_update_fixture_paths(Some("metadata.json".to_string()), None, None, None)
            .is_err()
    );
}

#[test]
fn desktop_integration_fixture_requires_all_configuration() {
    assert!(resolve_desktop_integration_fixture(None, None)
        .unwrap()
        .is_none());
    assert!(resolve_desktop_integration_fixture(
        Some(WINDOWS_NEEDS_REPAIR_LEGACY_FIXTURE.to_owned()),
        None,
    )
    .is_err());
    assert!(resolve_desktop_integration_fixture(
        None,
        Some("desktop-integration.record".to_string()),
    )
    .is_err());
    assert!(resolve_desktop_integration_fixture(
        Some("unknown".to_owned()),
        Some("desktop-integration.record".to_string()),
    )
    .is_err());
}

#[test]
fn fixture_errors_name_the_missing_or_unsupported_setting() {
    assert_eq!(
        resolve_update_fixture_paths(None, Some("a".to_string()), None, None).err(),
        Some(FixtureConfigError::IncompleteUpdateFixture)
    );
    assert_eq!(
        resolve_desktop_integration_fixture(
            Some("unknown".to_owned()),
            Some("record".to_string())
        )
        .err(),
        Some(FixtureConfigError::UnsupportedDesktopIntegrationState)
    );
    assert_eq!(
        resolve_desktop_integration_fixture(None, Some("record".to_string())).err(),
        Some(FixtureConfigError::IncompleteDesktopIntegrationFixture)
    );
    let config = resolve_desktop_integration_fixture(
        Some(WINDOWS_NEEDS_REPAIR_LEGACY_FIXTURE.to_owned()),
        Some("desktop-integration.record".to_string()),
    )
    .unwrap()
    .unwrap();
    assert_eq!(config.record_path, "desktop-integration.record");
}
