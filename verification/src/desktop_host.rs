use vstd::prelude::*;

use crate::format::push_char;
use crate::i18n::Locale;

verus! {

/// Where the desktop host is in its life: running, asked to quit, or gone.
#[derive(Debug, Clone, Copy, PartialEq, Eq, Structural)]
pub enum DesktopHostPhase {
    Running,
    Quitting,
    Exited,
}

impl Default for DesktopHostPhase {
    fn default() -> (phase: Self)
        ensures
            phase == DesktopHostPhase::Running,
    {
        DesktopHostPhase::Running
    }
}

/// A typed activation that a second manager process forwards to the first.
#[derive(Debug, Clone, Copy, PartialEq, Eq, Structural)]
pub enum ManagerActivation {
    Show,
    ReloadPendingProviderImport,
    ShowUpdate,
}

/// What the window system, the tray or another process tells the host.
#[derive(Debug, Clone, Copy, PartialEq, Eq, Structural)]
pub enum DesktopHostEvent {
    CloseRequested,
    Minimized(bool),
    Activation(ManagerActivation),
    TrayShow,
    TrayQuit,
}

/// What the host asks the window system to do in answer to an event.
#[derive(Debug, Clone, Copy, PartialEq, Eq, Structural)]
pub enum DesktopHostEffect {
    CancelClose,
    Hide,
    Show,
    Restore,
    Focus,
    ReloadPendingProviderImport,
    ShowUpdate,
    RequestExit,
}

/// The abstract state of the host: its phase, and whether a minimize has
/// already hidden the window.
pub struct HostModel {
    pub phase: DesktopHostPhase,
    pub minimized_hidden: bool,
}

/// The effects that bring the window back, after an optional first effect.
pub open spec fn spec_show_effects(first: Option<DesktopHostEffect>) -> Seq<DesktopHostEffect> {
    let tail = seq![DesktopHostEffect::Show, DesktopHostEffect::Restore, DesktopHostEffect::Focus];
    match first {
        Some(effect) => seq![effect] + tail,
        None => tail,
    }
}

/// One step of the host: the state after `event` and the effects it asks for.
/// Outside the running phase every event is ignored.
pub open spec fn host_step(s: HostModel, event: DesktopHostEvent) -> (HostModel, Seq<
    DesktopHostEffect,
>) {
    if s.phase != DesktopHostPhase::Running {
        (s, Seq::empty())
    } else {
        match event {
            DesktopHostEvent::CloseRequested => (
                s,
                seq![DesktopHostEffect::CancelClose, DesktopHostEffect::Hide],
            ),
            DesktopHostEvent::Minimized(true) => if !s.minimized_hidden {
                (
                    HostModel { phase: s.phase, minimized_hidden: true },
                    seq![DesktopHostEffect::Hide],
                )
            } else {
                (s, Seq::empty())
            },
            DesktopHostEvent::Minimized(false) => (
                HostModel { phase: s.phase, minimized_hidden: false },
                Seq::empty(),
            ),
            DesktopHostEvent::TrayShow | DesktopHostEvent::Activation(ManagerActivation::Show) => (
                HostModel { phase: s.phase, minimized_hidden: false },
                spec_show_effects(None),
            ),
            DesktopHostEvent::Activation(ManagerActivation::ReloadPendingProviderImport) => (
                HostModel { phase: s.phase, minimized_hidden: false },
                spec_show_effects(Some(DesktopHostEffect::ReloadPendingProviderImport)),
            ),
            DesktopHostEvent::Activation(ManagerActivation::ShowUpdate) => (
                HostModel { phase: s.phase, minimized_hidden: false },
                spec_show_effects(Some(DesktopHostEffect::ShowUpdate)),
            ),
            DesktopHostEvent::TrayQuit => (
                HostModel { phase: DesktopHostPhase::Quitting, minimized_hidden: s.minimized_hidden },
                seq![DesktopHostEffect::RequestExit],
            ),
        }
    }
}

/// The state after a whole sequence of events, with all effects in order.
pub open spec fn host_run(s: HostModel, events: Seq<DesktopHostEvent>) -> (HostModel, Seq<
    DesktopHostEffect,
>)
    decreases events.len(),
{
    if events.len() == 0 {
        (s, Seq::empty())
    } else {
        let (next, first) = host_step(s, events[0]);
        let (last, rest) = host_run(next, events.drop_first());
        (last, first + rest)
    }
}

/// The number of times `effect` occurs in `effects`.
pub open spec fn effect_count(effects: Seq<DesktopHostEffect>, effect: DesktopHostEffect) -> nat
    decreases effects.len(),
{
    if effects.len() == 0 {
        0
    } else {
        (if effects[0] == effect {
            1nat
        } else {
            0nat
        }) + effect_count(effects.drop_first(), effect)
    }
}


/// Once the host has left the running phase, no sequence of events changes
/// its state or asks for any effect.
pub proof fn law_stopped_host_ignores_events(s: HostModel, events: Seq<DesktopHostEvent>)
    requires
        s.phase != DesktopHostPhase::Running,
    ensures
        host_run(s, events) == (s, Seq::<DesktopHostEffect>::empty()),
    decreases events.len(),
{
    if events.len() > 0 {
        law_stopped_host_ignores_events(s, events.drop_first());
        assert(Seq::<DesktopHostEffect>::empty() + Seq::<DesktopHostEffect>::empty()
            =~= Seq::<DesktopHostEffect>::empty());
    }
}

proof fn lemma_effect_count_concat(a: Seq<DesktopHostEffect>, b: Seq<DesktopHostEffect>, e: DesktopHostEffect)
    ensures
        effect_count(a + b, e) == effect_count(a, e) + effect_count(b, e),
    decreases a.len(),
{
    if a.len() == 0 {
        assert(a + b =~= b);
    } else {
        lemma_effect_count_concat(a.drop_first(), b, e);
        assert((a + b).drop_first() =~= a.drop_first() + b);
    }
}

/// Whatever events arrive, the host asks to exit at most once, and never once
/// it has stopped running: quitting is explicit and happens exactly once.
pub proof fn law_exit_requested_at_most_once(s: HostModel, events: Seq<DesktopHostEvent>)
    ensures
        effect_count(host_run(s, events).1, DesktopHostEffect::RequestExit) <= (if s.phase
            == DesktopHostPhase::Running {
            1nat
        } else {
            0nat
        }),
    decreases events.len(),
{
    if s.phase != DesktopHostPhase::Running {
        law_stopped_host_ignores_events(s, events);
    } else if events.len() > 0 {
        let (next, first) = host_step(s, events[0]);
        law_exit_requested_at_most_once(next, events.drop_first());
        lemma_effect_count_concat(first, host_run(next, events.drop_first()).1, DesktopHostEffect::RequestExit);
        reveal_with_fuel(effect_count, 5);
    }
}

/// One step of the host's life as the event loop drives it: an event, or the
/// end of the loop (`mark_exited`).
pub enum HostStep {
    Event(DesktopHostEvent),
    MarkExited,
}

/// The state after a sequence of steps, with the effects the events asked
/// for in order; ending the loop asks for none.
pub open spec fn host_steps(s: HostModel, steps: Seq<HostStep>) -> (HostModel, Seq<DesktopHostEffect>)
    decreases steps.len(),
{
    if steps.len() == 0 {
        (s, Seq::empty())
    } else {
        let (next, first) = match steps[0] {
            HostStep::Event(event) => host_step(s, event),
            HostStep::MarkExited => (
                HostModel { phase: DesktopHostPhase::Exited, minimized_hidden: s.minimized_hidden },
                Seq::empty(),
            ),
        };
        let (last, rest) = host_steps(next, steps.drop_first());
        (last, first + rest)
    }
}

/// With the end of the event loop mixed in among the events, the host still
/// asks to exit at most once, never once it has stopped running, and a host
/// that has stopped running never runs again.
pub proof fn law_exit_requested_at_most_once_with_exits(s: HostModel, steps: Seq<HostStep>)
    ensures
        effect_count(host_steps(s, steps).1, DesktopHostEffect::RequestExit) <= (if s.phase
            == DesktopHostPhase::Running {
            1nat
        } else {
            0nat
        }),
        s.phase != DesktopHostPhase::Running ==> host_steps(s, steps).0.phase != DesktopHostPhase::Running,
    decreases steps.len(),
{
    if steps.len() > 0 {
        let (next, first) = match steps[0] {
            HostStep::Event(event) => host_step(s, event),
            HostStep::MarkExited => (
                HostModel { phase: DesktopHostPhase::Exited, minimized_hidden: s.minimized_hidden },
                Seq::<DesktopHostEffect>::empty(),
            ),
        };
        law_exit_requested_at_most_once_with_exits(next, steps.drop_first());
        lemma_effect_count_concat(first, host_steps(next, steps.drop_first()).1, DesktopHostEffect::RequestExit);
        reveal_with_fuel(effect_count, 5);
    }
}

/// Closing and minimizing only hide the window: a running host that receives
/// no tray quit keeps running and never asks to exit.
pub proof fn law_close_and_minimize_never_quit(s: HostModel, events: Seq<DesktopHostEvent>)
    requires
        s.phase == DesktopHostPhase::Running,
        forall|i: int| 0 <= i < events.len() ==> events[i] != DesktopHostEvent::TrayQuit,
    ensures
        host_run(s, events).0.phase == DesktopHostPhase::Running,
        effect_count(host_run(s, events).1, DesktopHostEffect::RequestExit) == 0,
    decreases events.len(),
{
    if events.len() > 0 {
        let (next, first) = host_step(s, events[0]);
        assert forall|i: int| 0 <= i < events.drop_first().len() implies events.drop_first()[i]
            != DesktopHostEvent::TrayQuit by {
            assert(events.drop_first()[i] == events[i + 1]);
        }
        law_close_and_minimize_never_quit(next, events.drop_first());
        lemma_effect_count_concat(first, host_run(next, events.drop_first()).1, DesktopHostEffect::RequestExit);
        reveal_with_fuel(effect_count, 5);
    }
}

/// A repeated minimize hides the window only once until it is shown again.
pub proof fn law_minimize_hides_once(s: HostModel)
    requires
        s.phase == DesktopHostPhase::Running,
        !s.minimized_hidden,
    ensures
        host_run(s, seq![DesktopHostEvent::Minimized(true), DesktopHostEvent::Minimized(true)]).1
            == seq![DesktopHostEffect::Hide],
{
    let events = seq![DesktopHostEvent::Minimized(true), DesktopHostEvent::Minimized(true)];
    assert(events.drop_first().drop_first() =~= Seq::<DesktopHostEvent>::empty());
    assert(events.drop_first()[0] == DesktopHostEvent::Minimized(true));
    reveal_with_fuel(host_run, 3);
    assert(seq![DesktopHostEffect::Hide] + (Seq::<DesktopHostEffect>::empty() + Seq::<DesktopHostEffect>::empty())
        =~= seq![DesktopHostEffect::Hide]);
}

/// Every activation and the tray's show item bring the window back: the
/// effects end with show, restore and focus, and the minimize latch is cleared.
pub proof fn law_show_requests_restore_focus(s: HostModel, event: DesktopHostEvent)
    requires
        s.phase == DesktopHostPhase::Running,
        event is TrayShow || event is Activation,
    ensures
        host_step(s, event).0.phase == DesktopHostPhase::Running,
        !host_step(s, event).0.minimized_hidden,
        ({
            let effects = host_step(s, event).1;
            &&& effects.len() >= 3
            &&& effects.subrange(effects.len() - 3, effects.len() as int) == seq![
                DesktopHostEffect::Show,
                DesktopHostEffect::Restore,
                DesktopHostEffect::Focus,
            ]
        }),
{
    let effects = host_step(s, event).1;
    assert(effects.subrange(effects.len() - 3, effects.len() as int) =~= seq![
        DesktopHostEffect::Show,
        DesktopHostEffect::Restore,
        DesktopHostEffect::Focus,
    ]);
}

/// The reducer that turns window, tray and activation events into effects.
#[derive(Debug)]
pub struct DesktopHostLifecycle {
    phase: DesktopHostPhase,
    minimized_hidden: bool,
}

impl View for DesktopHostLifecycle {
    type V = HostModel;

    closed spec fn view(&self) -> HostModel {
        HostModel { phase: self.phase, minimized_hidden: self.minimized_hidden }
    }
}

impl Default for DesktopHostLifecycle {
    /// A new host runs with its window shown.
    fn default() -> (host: Self)
        ensures
            host@ == (HostModel { phase: DesktopHostPhase::Running, minimized_hidden: false }),
    {
        DesktopHostLifecycle { phase: DesktopHostPhase::Running, minimized_hidden: false }
    }
}

impl DesktopHostLifecycle {
    pub fn phase(&self) -> (phase: DesktopHostPhase)
        ensures
            phase == self@.phase,
    {
        self.phase
    }

    /// Applies one event and returns the effects the window system must carry out.
    pub fn reduce(&mut self, event: DesktopHostEvent) -> (effects: Vec<DesktopHostEffect>)
        ensures
            (final(self)@, effects@) == host_step(old(self)@, event),
    {
        match self.phase {
            DesktopHostPhase::Running => {},
            _ => {
                return Vec::new();
            },
        }
        match event {
            DesktopHostEvent::CloseRequested => {
                let mut effects = Vec::new();
                effects.push(DesktopHostEffect::CancelClose);
                effects.push(DesktopHostEffect::Hide);
                effects
            },
            DesktopHostEvent::Minimized(true) => {
                if !self.minimized_hidden {
                    self.minimized_hidden = true;
                    let mut effects = Vec::new();
                    effects.push(DesktopHostEffect::Hide);
                    effects
                } else {
                    Vec::new()
                }
            },
            DesktopHostEvent::Minimized(false) => {
                self.minimized_hidden = false;
                Vec::new()
            },
            DesktopHostEvent::TrayShow | DesktopHostEvent::Activation(ManagerActivation::Show) => {
                self.show_effects(None)
            },
            DesktopHostEvent::Activation(ManagerActivation::ReloadPendingProviderImport) => {
                self.show_effects(Some(DesktopHostEffect::ReloadPendingProviderImport))
            },
            DesktopHostEvent::Activation(ManagerActivation::ShowUpdate) => {
                self.show_effects(Some(DesktopHostEffect::ShowUpdate))
            },
            DesktopHostEvent::TrayQuit => {
                self.phase = DesktopHostPhase::Quitting;
                let mut effects = Vec::new();
                effects.push(DesktopHostEffect::RequestExit);
                effects
            },
        }
    }

    /// Records that the event loop has ended.
    pub fn mark_exited(&mut self)
        ensures
            final(self)@.phase == DesktopHostPhase::Exited,
            final(self)@.minimized_hidden == old(self)@.minimized_hidden,
    {
        self.phase = DesktopHostPhase::Exited;
    }

    /// Clears the minimize latch and returns the effects that bring the window back.
    pub fn show_effects(&mut self, first: Option<DesktopHostEffect>) -> (effects: Vec<
        DesktopHostEffect,
    >)
        ensures
            final(self)@.phase == old(self)@.phase,
            !final(self)@.minimized_hidden,
            effects@ == spec_show_effects(first),
    {
        self.minimized_hidden = false;
        let mut effects = Vec::new();
        if let Some(first) = first {
            effects.push(first);
        }
        effects.push(DesktopHostEffect::Show);
        effects.push(DesktopHostEffect::Restore);
        effects.push(DesktopHostEffect::Focus);
        proof {
            assert(effects@ =~= spec_show_effects(first));
        }
        effects
    }
}

/// The labels of the tray menu's two items, show and quit.
pub open spec fn spec_tray_labels(locale: Locale) -> (Seq<char>, Seq<char>) {
    match locale {
        Locale::ZhCn => ("显示窗口"@, "退出"@),
        Locale::En => ("Show"@, "Quit"@),
    }
}

pub fn tray_labels(locale: Locale) -> (labels: (&'static str, &'static str))
    ensures
        (labels.0@, labels.1@) == spec_tray_labels(locale),
{
    match locale {
        Locale::ZhCn => ("显示窗口", "退出"),
        Locale::En => ("Show", "Quit"),
    }
}

} // verus!

verus! {

/// The application identifier under which the manager registers its window.
pub const APP_ID: &'static str = "com.bigpizzav3.codexplusplus.manager";

/// The window and tray title.
pub const APP_TITLE: &'static str = "Codex++ Manager";

/// The identifier under which earlier native builds stored their preferences.
pub const LEGACY_NATIVE_APP_ID: &'static str = "com.codexplusplus.manager.native";

/// Legacy preference files larger than this are not migrated.
pub const MAX_PREFERENCE_BYTES: u64 = 4194304;

/// The separator of path components on this platform.
/// Reads `std::path::MAIN_SEPARATOR`; the value depends on the platform the
/// program was built for, so nothing is stated of it.
#[verifier::external_body]
fn main_separator() -> char {
    std::path::MAIN_SEPARATOR
}

/// A character that separates path components: `/` everywhere, and the
/// platform's own separator.
pub open spec fn is_path_separator(c: char, separator: char) -> bool {
    c == '/' || c == separator
}

/// `name` appended to `base` as a path component with the platform's
/// `separator`: a `name` that starts at a root replaces `base`, and no
/// separator is added after one that `base` already ends with, nor to an
/// empty `base`.
pub open spec fn path_join(base: Seq<char>, name: Seq<char>, separator: char) -> Seq<char> {
    if name.len() > 0 && is_path_separator(name[0], separator) {
        name
    } else if base.len() == 0 || is_path_separator(base.last(), separator) {
        base + name
    } else {
        base + seq![separator] + name
    }
}

/// Joins a path component to a base path with the platform's separator.
pub fn join_path(base: &str, name: &str, separator: char) -> (joined: String)
    ensures
        joined@ == path_join(base@, name@, separator),
{
    let name_len = name.unicode_len();
    if name_len > 0 {
        let first = name.get_char(0);
        if first == '/' || first == separator {
            return name.to_string();
        }
    }
    let base_len = base.unicode_len();
    let mut joined = base.to_string();
    if base_len > 0 {
        let last = base.get_char(base_len - 1);
        if last != '/' && last != separator {
            push_char(&mut joined, separator);
        }
    }
    let ghost before = joined@;
    joined.append(name);
    proof {
        if base@.len() > 0 {
            assert(base@.last() == base@[base@.len() - 1]);
        }
        assert(joined@ == before + name@);
    }
    joined
}

/// Where the manager keeps its window preferences: the state directory, the
/// canonical preference file under it, and the file of earlier builds.
#[derive(Debug, Clone)]
pub struct NativePersistencePaths {
    separator: char,
    state_root: String,
    canonical: String,
    legacy: Option<String>,
}

/// The abstract paths, as character sequences.
pub struct PersistencePathsModel {
    pub separator: char,
    pub state_root: Seq<char>,
    pub canonical: Seq<char>,
    pub legacy: Option<Seq<char>>,
}

/// The canonical preference file under a state directory.
pub open spec fn canonical_preferences(state_root: Seq<char>, separator: char) -> Seq<char> {
    path_join(path_join(state_root, "manager-ui"@, separator), "app.ron"@, separator)
}

impl View for NativePersistencePaths {
    type V = PersistencePathsModel;

    closed spec fn view(&self) -> PersistencePathsModel {
        PersistencePathsModel {
            separator: self.separator,
            state_root: self.state_root@,
            canonical: self.canonical@,
            legacy: match self.legacy {
                Some(path) => Some(path@),
                None => None,
            },
        }
    }
}

impl NativePersistencePaths {
    /// The paths under an explicit state directory: the canonical file lives in
    /// its `manager-ui` subdirectory and the legacy file directly in it. Paths
    /// are joined with the platform's separator.
    pub fn for_state_root(state_root: String) -> (paths: Self)
        ensures
            paths@.state_root == state_root@,
            paths@.canonical == canonical_preferences(state_root@, paths@.separator),
            paths@.legacy == Some(path_join(state_root@, "app.ron"@, paths@.separator)),
    {
        Self::for_state_root_with_separator(state_root, main_separator())
    }

    /// The paths under an explicit state directory, joined with `separator`.
    pub fn for_state_root_with_separator(state_root: String, separator: char) -> (paths: Self)
        ensures
            paths@.separator == separator,
            paths@.state_root == state_root@,
            paths@.canonical == canonical_preferences(state_root@, separator),
            paths@.legacy == Some(path_join(state_root@, "app.ron"@, separator)),
    {
        let directory = join_path(state_root.as_str(), "manager-ui", separator);
        let canonical = join_path(directory.as_str(), "app.ron", separator);
        let legacy = join_path(state_root.as_str(), "app.ron", separator);
        NativePersistencePaths { separator, state_root, canonical, legacy: Some(legacy) }
    }

    /// The paths for an optional state-directory override. Without one, the
    /// platform's default state directory holds the canonical file and the
    /// legacy file sits in the storage directory of the legacy application
    /// identifier, when the platform has one. Paths are joined with the
    /// platform's separator.
    pub fn for_state_override(
        state_override: Option<String>,
        default_state_root: String,
        legacy_storage_dir: Option<String>,
    ) -> (paths: Self)
        ensures
            state_override is Some ==> paths@.state_root == state_override->0@
                && paths@.canonical == canonical_preferences(state_override->0@, paths@.separator)
                && paths@.legacy == Some(path_join(state_override->0@, "app.ron"@, paths@.separator)),
            state_override is None ==> paths@.state_root == default_state_root@
                && paths@.canonical == canonical_preferences(default_state_root@, paths@.separator)
                && paths@.legacy == (match legacy_storage_dir {
                    Some(directory) => Some(path_join(directory@, "app.ron"@, paths@.separator)),
                    None => None,
                }),
    {
        Self::for_state_override_with_separator(state_override, default_state_root, legacy_storage_dir, main_separator())
    }

    /// The paths for an optional state-directory override, joined with
    /// `separator`.
    pub fn for_state_override_with_separator(
        state_override: Option<String>,
        default_state_root: String,
        legacy_storage_dir: Option<String>,
        separator: char,
    ) -> (paths: Self)
        ensures
            paths@.separator == separator,
            state_override is Some ==> paths@.state_root == state_override->0@
                && paths@.canonical == canonical_preferences(state_override->0@, separator)
                && paths@.legacy == Some(path_join(state_override->0@, "app.ron"@, separator)),
            state_override is None ==> paths@.state_root == default_state_root@
                && paths@.canonical == canonical_preferences(default_state_root@, separator)
                && paths@.legacy == (match legacy_storage_dir {
                    Some(directory) => Some(path_join(directory@, "app.ron"@, separator)),
                    None => None,
                }),
    {
        match state_override {
            Some(state_root) => Self::for_state_root_with_separator(state_root, separator),
            None => {
                let directory = join_path(default_state_root.as_str(), "manager-ui", separator);
                let canonical = join_path(directory.as_str(), "app.ron", separator);
                let legacy = match legacy_storage_dir {
                    Some(directory) => Some(join_path(directory.as_str(), "app.ron", separator)),
                    None => None,
                };
                NativePersistencePaths { separator, state_root: default_state_root, canonical, legacy }
            },
        }
    }

    /// The separator the paths were joined with.
    pub fn separator(&self) -> (separator: char)
        ensures
            separator == self@.separator,
    {
        self.separator
    }

    pub fn state_root(&self) -> (root: &str)
        ensures
            root@ == self@.state_root,
    {
        self.state_root.as_str()
    }

    pub fn canonical(&self) -> (path: &str)
        ensures
            path@ == self@.canonical,
    {
        self.canonical.as_str()
    }

    pub fn legacy(&self) -> (path: Option<&str>)
        ensures
            match path {
                Some(p) => self@.legacy == Some(p@),
                None => self@.legacy is None,
            },
    {
        match &self.legacy {
            Some(path) => Some(path.as_str()),
            None => None,
        }
    }
}

/// How a preference migration ended.
#[derive(Debug, Clone, Copy, PartialEq, Eq, Structural)]
pub enum PreferenceMigration {
    Migrated,
    CanonicalAlreadyExists,
    NoLegacyPreferences,
}

/// Why a preference migration failed.
#[derive(Debug, Clone, Copy, PartialEq, Eq, Structural)]
pub enum PreferenceMigrationError {
    SourceTooLarge,
    ReadFailed,
    PrepareFailed,
    WriteFailed,
    CommitFailed,
}

/// What the migration does after looking at the files: stop with an outcome,
/// or copy the legacy file to the canonical place.
#[derive(Debug, Clone, Copy, PartialEq, Eq, Structural)]
pub enum MigrationPlan {
    Finished(PreferenceMigration),
    CopyLegacy,
}

/// Decides the first step of a migration from what the file system shows: an
/// existing canonical file wins, a missing legacy file means nothing to do,
/// an unreadable or oversized legacy file is an error.
/// `legacy_size` is the legacy file's length, `None` where its metadata could
/// not be read; it matters only when the legacy path is a file.
pub fn plan_migration(canonical_exists: bool, legacy_is_file: bool, legacy_size: Option<u64>) -> (plan: Result<MigrationPlan, PreferenceMigrationError>)
    ensures
        canonical_exists ==> plan == Ok::<MigrationPlan, PreferenceMigrationError>(
            MigrationPlan::Finished(PreferenceMigration::CanonicalAlreadyExists)),
        !canonical_exists && !legacy_is_file ==> plan == Ok::<MigrationPlan, PreferenceMigrationError>(
            MigrationPlan::Finished(PreferenceMigration::NoLegacyPreferences)),
        !canonical_exists && legacy_is_file ==> plan == (match legacy_size {
            None => Err(PreferenceMigrationError::ReadFailed),
            Some(size) => if size > MAX_PREFERENCE_BYTES {
                Err(PreferenceMigrationError::SourceTooLarge)
            } else {
                Ok(MigrationPlan::CopyLegacy)
            },
        }),
{
    if canonical_exists {
        return Ok(MigrationPlan::Finished(PreferenceMigration::CanonicalAlreadyExists));
    }
    if !legacy_is_file {
        return Ok(MigrationPlan::Finished(PreferenceMigration::NoLegacyPreferences));
    }
    match legacy_size {
        None => Err(PreferenceMigrationError::ReadFailed),
        Some(size) => if size > MAX_PREFERENCE_BYTES {
            Err(PreferenceMigrationError::SourceTooLarge)
        } else {
            Ok(MigrationPlan::CopyLegacy)
        },
    }
}

/// Checks the number of bytes actually read from the legacy file, which may
/// have grown since its metadata was read.
pub fn check_read_size(bytes_read: usize) -> (checked: Result<(), PreferenceMigrationError>)
    ensures
        checked is Err <==> bytes_read > MAX_PREFERENCE_BYTES,
        checked is Err ==> checked == Err::<(), PreferenceMigrationError>(PreferenceMigrationError::SourceTooLarge),
{
    if bytes_read as u64 > MAX_PREFERENCE_BYTES {
        Err(PreferenceMigrationError::SourceTooLarge)
    } else {
        Ok(())
    }
}

/// The outcome once the copied file has been linked into place: success, a
/// concurrent migration that got there first, or a failed commit.
pub fn classify_commit(link_succeeded: bool, canonical_exists_after: bool) -> (outcome: Result<PreferenceMigration, PreferenceMigrationError>)
    ensures
        link_succeeded ==> outcome == Ok::<PreferenceMigration, PreferenceMigrationError>(PreferenceMigration::Migrated),
        !link_succeeded && canonical_exists_after ==> outcome == Ok::<PreferenceMigration, PreferenceMigrationError>(
            PreferenceMigration::CanonicalAlreadyExists),
        !link_succeeded && !canonical_exists_after ==> outcome == Err::<PreferenceMigration, PreferenceMigrationError>(
            PreferenceMigrationError::CommitFailed),
{
    if link_succeeded {
        Ok(PreferenceMigration::Migrated)
    } else if canonical_exists_after {
        Ok(PreferenceMigration::CanonicalAlreadyExists)
    } else {
        Err(PreferenceMigrationError::CommitFailed)
    }
}

/// Why the desktop host could not start.
#[derive(Debug, Clone, Copy, PartialEq, Eq, Structural)]
pub enum DesktopHostRuntimeError {
    ActivationReceiver,
    ActivationWorker,
    Tray,
}

} // verus!
