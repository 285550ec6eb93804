//! Verified decision logic of the Codex++ native manager: the desktop host
//! lifecycle and preference migration, the localized text catalogs, the page
//! states (overview, sessions, relay environment, maintenance, settings,
//! enhancements) with their request bookkeeping, the provider editor's
//! edits, worker queue scheduling, the scripted performance run, and the
//! small text and formatting helpers they share.
pub mod about_text;
pub mod clock;
pub mod context_text;
pub mod desktop_fixture;
pub mod desktop_host;
pub mod dispatch;
pub mod enhancement_text;
pub mod enhancements;
pub mod environment;
pub mod fixtures;
pub mod format;
pub mod i18n;
pub mod maintenance;
pub mod operation;
pub mod overview;
pub mod path_picker;
pub mod perf_script;
pub mod persistence;
pub mod provider_edit;
pub mod provider_text;
pub mod session_text;
pub mod sessions;
pub mod settings;
pub mod string_set;
