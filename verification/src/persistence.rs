use vstd::prelude::*;

use crate::i18n::{Locale, ThemeMode};

verus! {

/// The key under which the window preferences are stored.
pub const STORAGE_KEY: &'static str = "native_manager_ui";

/// The interface preferences kept between runs.
#[derive(Debug, Clone, Copy, PartialEq, Eq, Structural)]
pub struct PersistedUiState {
    pub locale: Locale,
    pub theme: ThemeMode,
}

impl Default for PersistedUiState {
    /// Chinese and the dark theme, until the user changes them.
    fn default() -> (state: Self)
        ensures
            state == (PersistedUiState { locale: Locale::ZhCn, theme: ThemeMode::Dark }),
    {
        PersistedUiState { locale: Locale::ZhCn, theme: ThemeMode::Dark }
    }
}

/// The preferences to use after reading storage: what was stored, or the
/// defaults when nothing readable was stored.
pub fn loaded_or_default(stored: Option<PersistedUiState>) -> (state: PersistedUiState)
    ensures
        state == (match stored {
            Some(s) => s,
            None => PersistedUiState { locale: Locale::ZhCn, theme: ThemeMode::Dark },
        }),
{
    match stored {
        Some(state) => state,
        None => PersistedUiState::default(),
    }
}

} // verus!
