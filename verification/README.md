# Codex++ native manager — verified core

The decision logic of the Codex++ native manager, written in Verus and
proved against its contracts.

- `src/` is the library. Each page of the manager has a state type whose
  methods are the page's transitions (`overview`, `sessions`, `environment`,
  `maintenance`, `settings`, `enhancements`); their contracts are stated over
  a model of the page (`@`), and the `law_*` proof functions state what holds
  across transitions: stale answers change nothing, edits survive answers and
  reloads, a stopped worker leaves nothing running, and so on.
  `desktop_host` holds the window/tray lifecycle and the preference migration
  decisions, `dispatch` the worker queue scheduling, `provider_edit` the
  provider editor's edits, `perf_script` the scripted performance run, and
  the `*_text` modules and `i18n` the localized texts.
- `tests/` runs the library on concrete values.
- `app/` is the eframe program around the library: threads, channels, the
  tray, the file system and drawing.
