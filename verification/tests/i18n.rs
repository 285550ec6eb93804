use codex_plus_manager_native::i18n::{text, Locale, TextKey, ThemeMode, TEXT_KEY_COUNT};
use codex_plus_manager_native::persistence::{loaded_or_default, PersistedUiState};

#[test]
fn every_native_manager_key_has_both_locales() {
    assert_eq!(TextKey::all().len(), TEXT_KEY_COUNT);
    for key in TextKey::all() {
        assert!(
            !text(Locale::ZhCn, key).trim().is_empty(),
            "missing zh: {key:?}"
        );
        assert!(
            !text(Locale::En, key).trim().is_empty(),
            "missing en: {key:?}"
        );
    }
}

#[test]
fn locale_defaults_to_chinese_and_switches_catalog_values() {
    assert_eq!(Locale::default(), Locale::ZhCn);
    assert_eq!(text(Locale::ZhCn, TextKey::About), "关于");
    assert_eq!(text(Locale::En, TextKey::About), "About");
}

#[test]
fn catalog_keys_are_listed_in_catalog_order() {
    let keys = TextKey::all();
    assert_eq!(keys[0], TextKey::AppName);
    assert_eq!(keys[TEXT_KEY_COUNT - 1], TextKey::RetryInspection);
    assert_eq!(TextKey::from_ordinal(3), TextKey::About);
    assert_eq!(text(Locale::En, TextKey::RetryInspection), "Inspect again");
    assert_eq!(text(Locale::ZhCn, TextKey::RetryInspection), "重新检查");
}

#[test]
fn persisted_ui_defaults_to_chinese_dark() {
    let defaults = PersistedUiState::default();
    assert_eq!(defaults.locale, Locale::ZhCn);
    assert_eq!(defaults.theme, ThemeMode::Dark);
    let stored = PersistedUiState { locale: Locale::En, theme: ThemeMode::Light };
    assert_eq!(loaded_or_default(Some(stored)), stored);
    assert_eq!(loaded_or_default(None), PersistedUiState::default());
}
