use codex_plus_manager_native::provider_edit::{
    apply_provider_edit, map_provider_save_failure, model_rows, model_rows_from_entries,
    AggregateRelayProfile, ProviderEdit,
    ProviderErrorKind, ProviderProfile, ProviderSaveFailureKind, RelayMode, RelayProfile,
    RelayProtocol,
};

#[test]
fn provider_edits_keep_aggregate_names_in_sync_and_normalize_numeric_fields() {
    let mut aggregate = ProviderProfile::Aggregate {
        shell: RelayProfile {
            id: "aggregate".to_string(),
            name: "Old".to_string(),
            relay_mode: RelayMode::Aggregate,
            ..RelayProfile::default()
        },
        routing: AggregateRelayProfile {
            id: "aggregate".to_string(),
            name: "Old".to_string(),
            strategy: Default::default(),
            members: Vec::new(),
        },
    };
    apply_provider_edit(&mut aggregate, ProviderEdit::Name("New".to_string()));
    let ProviderProfile::Aggregate { shell, routing } = aggregate else {
        unreachable!()
    };
    assert_eq!(shell.name, "New");
    assert_eq!(routing.name, "New");

    let mut ordinary = ProviderProfile::Ordinary(RelayProfile::default());
    apply_provider_edit(
        &mut ordinary,
        ProviderEdit::ContextWindow("2x00 000".to_string()),
    );
    assert_eq!(ordinary.ordinary().unwrap().context_window, "200000");
}

#[test]
fn provider_save_errors_map_to_stable_native_categories() {
    assert_eq!(
        map_provider_save_failure(ProviderErrorKind::Conflict),
        ProviderSaveFailureKind::Conflict
    );
    assert_eq!(
        map_provider_save_failure(ProviderErrorKind::Validation),
        ProviderSaveFailureKind::Validation
    );
    assert_eq!(
        map_provider_save_failure(ProviderErrorKind::SaveFailed),
        ProviderSaveFailureKind::SaveFailed
    );
    assert_eq!(
        map_provider_save_failure(ProviderErrorKind::LoadFailed),
        ProviderSaveFailureKind::SaveFailed
    );
}

#[test]
fn ordinary_fields_do_not_touch_aggregates() {
    let mut aggregate = ProviderProfile::Aggregate {
        shell: RelayProfile::default(),
        routing: AggregateRelayProfile {
            id: "a".to_string(),
            name: "A".to_string(),
            strategy: Default::default(),
            members: vec!["one".to_string()],
        },
    };
    apply_provider_edit(&mut aggregate, ProviderEdit::Model("gpt".to_string()));
    assert!(aggregate.ordinary().is_none());
    let ProviderProfile::Aggregate { shell, .. } = &aggregate else { unreachable!() };
    assert_eq!(shell.model, "");
}

#[test]
fn base_url_sets_upstream_too_and_limits_keep_digits() {
    let mut ordinary = ProviderProfile::Ordinary(RelayProfile::default());
    apply_provider_edit(&mut ordinary, ProviderEdit::BaseUrl("https://relay".to_string()));
    apply_provider_edit(&mut ordinary, ProviderEdit::AutoCompactLimit("a1b2".to_string()));
    apply_provider_edit(&mut ordinary, ProviderEdit::Protocol(RelayProtocol::ChatCompletions));
    apply_provider_edit(
        &mut ordinary,
        ProviderEdit::ModelRow { index: 0, model: "m".to_string(), window: "1".to_string() },
    );
    let profile = ordinary.ordinary().unwrap();
    assert_eq!(profile.base_url, "https://relay");
    assert_eq!(profile.upstream_base_url, "https://relay");
    assert_eq!(profile.auto_compact_limit, "12");
    assert_eq!(profile.protocol, RelayProtocol::ChatCompletions);
    assert_eq!(profile.model, "");
}

#[test]
fn model_rows_pair_listed_models_with_stored_windows() {
    let profile = RelayProfile {
        model_list: "gpt\n  \n o3 \n".to_string(),
        model_windows: "{\"gpt\":\"128000\",\"other\":\"5\"}".to_string(),
        ..RelayProfile::default()
    };
    assert_eq!(
        model_rows(&profile),
        vec![
            ("gpt".to_string(), "128000".to_string()),
            ("o3".to_string(), String::new()),
        ]
    );
}

#[test]
fn model_rows_ignore_windows_that_are_not_a_json_object() {
    let profile = RelayProfile {
        model_list: "gpt".to_string(),
        model_windows: "not json".to_string(),
        ..RelayProfile::default()
    };
    assert_eq!(model_rows(&profile), vec![("gpt".to_string(), String::new())]);
    assert!(model_rows(&RelayProfile::default()).is_empty());
}

#[test]
fn model_rows_from_entries_take_the_first_window_of_each_listed_model() {
    let entries = vec![
        ("gpt".to_string(), "128000".to_string()),
        ("o3".to_string(), "200000".to_string()),
        ("gpt".to_string(), "1".to_string()),
    ];
    assert_eq!(
        model_rows_from_entries(" gpt \n\nmistral\no3", &entries),
        vec![
            ("gpt".to_string(), "128000".to_string()),
            ("mistral".to_string(), String::new()),
            ("o3".to_string(), "200000".to_string()),
        ]
    );
    assert!(model_rows_from_entries("", &entries).is_empty());
}
