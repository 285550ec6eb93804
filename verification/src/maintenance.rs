use vstd::prelude::*;

use crate::format::{is_blank, text_eq, trimmed};
use crate::overview::Route;
use crate::path_picker::{
    PathPickerErrorKind, PathPickerRequest, PathPickerResponse, PathPickerTarget,
};

verus! {

/// Debug port that a native launch uses until the user changes it.
pub const DEFAULT_DEBUG_PORT: u16 = 9229;

/// Helper port that a native launch uses until the user changes it.
pub const DEFAULT_HELPER_PORT: u16 = 57321;

/// Number of log lines shown until the user picks another limit.
pub const DEFAULT_LOG_LIMIT: usize = 100;

/// Where the maintenance page is in loading its workspace.
#[derive(Debug, Clone, Copy, PartialEq, Eq, Structural)]
pub enum MaintenanceLoadPhase {
    Idle,
    Loading,
    Ready,
    Refreshing,
    Error,
}

impl Default for MaintenanceLoadPhase {
    fn default() -> (phase: Self)
        ensures
            phase == MaintenanceLoadPhase::Idle,
    {
        MaintenanceLoadPhase::Idle
    }
}

/// Where a save or a launch of the maintenance page stands.
#[derive(Debug, Clone, Copy, PartialEq, Eq, Structural)]
pub enum MaintenanceOperationPhase {
    Idle,
    Running,
    Ready,
    Error,
}

impl Default for MaintenanceOperationPhase {
    fn default() -> (phase: Self)
        ensures
            phase == MaintenanceOperationPhase::Idle,
    {
        MaintenanceOperationPhase::Idle
    }
}

/// Why a maintenance operation failed.
#[derive(Debug, Clone, Copy, PartialEq, Eq, Structural)]
pub enum MaintenanceFailureKind {
    SettingsReadFailed,
    SettingsWriteFailed,
    SettingsConflict,
    InvalidRevision,
    InvalidPath,
    InvalidPort,
    EntrypointReadFailed,
    StatusReadFailed,
    LogReadFailed,
    LaunchFailed,
    WorkerStopped,
}

/// One section of the maintenance workspace: read, or unavailable this time.
#[derive(Debug)]
pub enum SectionValue<T> {
    Available(T),
    Unavailable,
}

impl<T> SectionValue<T> {
    pub fn is_available(&self) -> (available: bool)
        ensures
            available == (self is Available),
    {
        match self {
            SectionValue::Available(_) => true,
            SectionValue::Unavailable => false,
        }
    }

    pub fn is_unavailable(&self) -> (unavailable: bool)
        ensures
            unavailable == (self is Unavailable),
    {
        match self {
            SectionValue::Available(_) => false,
            SectionValue::Unavailable => true,
        }
    }

    pub fn value(&self) -> (value: Option<&T>)
        ensures
            value == (match self {
                SectionValue::Available(v) => Some(v),
                SectionValue::Unavailable => None::<&T>,
            }),
    {
        match self {
            SectionValue::Available(v) => Some(v),
            SectionValue::Unavailable => None,
        }
    }
}

/// The Codex app path stored in the manager settings, with the revision it
/// was read at.
pub struct ConfiguredAppPath {
    pub revision: u64,
    pub value: String,
}

/// What the maintenance service reported: the configured app path (absent
/// when it could not be read), the app, entrypoint, last-launch and log
/// sections, and the diagnostics report. The section payloads that the page
/// only displays are left open.
pub struct MaintenanceWorkspace<C, E, L> {
    pub app_path: Option<ConfiguredAppPath>,
    pub codex_app: SectionValue<C>,
    pub entrypoints: SectionValue<E>,
    pub latest_launch: SectionValue<L>,
    pub logs: SectionValue<String>,
    pub diagnostics: String,
}

/// A section as merged: the incoming one, unless it is unavailable and the
/// previous one was read.
pub open spec fn merged_section<T>(current: SectionValue<T>, previous: SectionValue<T>) -> SectionValue<T> {
    if current is Unavailable && previous is Available {
        previous
    } else {
        current
    }
}

/// A workspace as merged with the one shown before: what the incoming
/// workspace could not read is kept from the previous one.
pub open spec fn merged_workspace<C, E, L>(
    previous: Option<MaintenanceWorkspace<C, E, L>>,
    incoming: MaintenanceWorkspace<C, E, L>,
) -> MaintenanceWorkspace<C, E, L> {
    match previous {
        None => incoming,
        Some(p) => MaintenanceWorkspace {
            app_path: if incoming.app_path is None {
                p.app_path
            } else {
                incoming.app_path
            },
            codex_app: merged_section(incoming.codex_app, p.codex_app),
            entrypoints: merged_section(incoming.entrypoints, p.entrypoints),
            latest_launch: merged_section(incoming.latest_launch, p.latest_launch),
            logs: merged_section(incoming.logs, p.logs),
            diagnostics: incoming.diagnostics,
        },
    }
}

fn merge_section<T>(current: SectionValue<T>, previous: SectionValue<T>) -> (merged: SectionValue<T>)
    ensures
        merged == merged_section(current, previous),
{
    if current.is_unavailable() && previous.is_available() {
        previous
    } else {
        current
    }
}

/// Merges a newly read workspace with the one shown before.
pub fn merge_partial_workspace<C, E, L>(
    previous: Option<MaintenanceWorkspace<C, E, L>>,
    incoming: MaintenanceWorkspace<C, E, L>,
) -> (merged: MaintenanceWorkspace<C, E, L>)
    ensures
        merged == merged_workspace(previous, incoming),
{
    match previous {
        None => incoming,
        Some(p) => {
            let app_path = if incoming.app_path.is_none() {
                p.app_path
            } else {
                incoming.app_path
            };
            MaintenanceWorkspace {
                app_path,
                codex_app: merge_section(incoming.codex_app, p.codex_app),
                entrypoints: merge_section(incoming.entrypoints, p.entrypoints),
                latest_launch: merge_section(incoming.latest_launch, p.latest_launch),
                logs: merge_section(incoming.logs, p.logs),
                diagnostics: incoming.diagnostics,
            }
        },
    }
}

/// A failed save: its kind, and the workspace the service read again when it
/// noticed the failure, if it did.
pub struct MaintenanceFailure<C, E, L> {
    pub kind: MaintenanceFailureKind,
    pub refreshed_workspace: Option<MaintenanceWorkspace<C, E, L>>,
}

impl<C, E, L> MaintenanceFailure<C, E, L> {
    pub fn new(kind: MaintenanceFailureKind) -> (failure: Self)
        ensures
            failure.kind == kind,
            failure.refreshed_workspace is None,
    {
        MaintenanceFailure { kind, refreshed_workspace: None }
    }

    pub fn with_workspace(kind: MaintenanceFailureKind, workspace: MaintenanceWorkspace<C, E, L>) -> (failure: Self)
        ensures
            failure.kind == kind,
            failure.refreshed_workspace == Some(workspace),
    {
        MaintenanceFailure { kind, refreshed_workspace: Some(workspace) }
    }
}

/// The app path being edited on the maintenance page.
pub struct AppPathDraft(String);

impl View for AppPathDraft {
    type V = Seq<char>;

    closed spec fn view(&self) -> Seq<char> {
        self.0@
    }
}

impl AppPathDraft {
    pub fn new(value: String) -> (draft: Self)
        ensures
            draft@ == value@,
    {
        AppPathDraft(value)
    }

    /// The path as typed.
    pub fn expose(&self) -> (path: &str)
        ensures
            path@ == self@,
    {
        self.0.as_str()
    }

    pub fn duplicate(&self) -> (copy: Self)
        ensures
            copy@ == self@,
    {
        AppPathDraft(self.0.clone())
    }
}

impl Default for AppPathDraft {
    fn default() -> (draft: Self)
        ensures
            draft@ == Seq::<char>::empty(),
    {
        AppPathDraft(String::new())
    }
}

/// Which document the maintenance page shows.
#[derive(Debug, Clone, Copy, PartialEq, Eq, Structural)]
pub enum MaintenanceDocumentTab {
    Logs,
    Report,
}

impl Default for MaintenanceDocumentTab {
    fn default() -> (tab: Self)
        ensures
            tab == MaintenanceDocumentTab::Logs,
    {
        MaintenanceDocumentTab::Logs
    }
}

/// Leaving the maintenance page, or reloading it.
#[derive(Debug, Clone, Copy, PartialEq, Eq, Structural)]
pub enum MaintenanceTransition {
    Navigate(Route),
    Refresh,
}

/// A save or a launch: its phase, the id of the request it waits for, and the
/// last failure.
#[derive(Debug, Clone, Copy, PartialEq, Eq, Structural)]
pub struct MaintenanceOperationState {
    pub phase: MaintenanceOperationPhase,
    pub current_request_id: u64,
    pub error: Option<MaintenanceFailureKind>,
}

impl Default for MaintenanceOperationState {
    fn default() -> (state: Self)
        ensures
            state == (MaintenanceOperationState {
                phase: MaintenanceOperationPhase::Idle,
                current_request_id: 0,
                error: None,
            }),
    {
        MaintenanceOperationState {
            phase: MaintenanceOperationPhase::Idle,
            current_request_id: 0,
            error: None,
        }
    }
}

/// A request to store the Codex app path, made against the revision it was
/// read at; clearing the path is confirmed explicitly.
pub struct SaveCodexAppPath {
    pub expected_revision: u64,
    pub path: String,
    pub confirmed_clear: bool,
}

/// A request to start Codex natively from an app path with two ports.
pub struct LaunchCodex {
    pub app_path: String,
    pub debug_port: u16,
    pub helper_port: u16,
}

impl LaunchCodex {
    pub fn native(app_path: String, debug_port: u16, helper_port: u16) -> (launch: Self)
        ensures
            launch.app_path@ == app_path@,
            launch.debug_port == debug_port,
            launch.helper_port == helper_port,
    {
        LaunchCodex { app_path, debug_port, helper_port }
    }
}

/// A pending clear of the app path, as it will be sent: the expected
/// revision, the path text and the explicit confirmation.
pub struct ClearRequestModel {
    pub expected_revision: u64,
    pub path: Seq<char>,
    pub confirmed_clear: bool,
}

/// The whole maintenance page state as contracts see it.
pub struct MaintenanceModel<C, E, L, O> {
    pub load_phase: MaintenanceLoadPhase,
    pub current_load_request_id: u64,
    pub load_error: Option<MaintenanceFailureKind>,
    pub workspace: Option<MaintenanceWorkspace<C, E, L>>,
    pub base: Seq<char>,
    pub revision: Option<u64>,
    pub draft: Seq<char>,
    pub debug_port: u16,
    pub helper_port: u16,
    pub document_tab: MaintenanceDocumentTab,
    pub log_limit: usize,
    pub save: MaintenanceOperationState,
    pub launch: MaintenanceOperationState,
    pub launch_outcome: Option<O>,
    pub picker_error: Option<PathPickerErrorKind>,
    pub pending_picker: Option<(u64, PathPickerTarget)>,
    pub clear_request: Option<ClearRequestModel>,
    pub pending_transition: Option<MaintenanceTransition>,
    pub conflict: bool,
    pub last_request_id: u64,
}

/// The draft differs from the path last read from the settings.
pub open spec fn path_is_dirty<C, E, L, O>(m: MaintenanceModel<C, E, L, O>) -> bool {
    m.draft != m.base
}

/// The page after a workspace arrives: the workspace merged with the one
/// shown before; a configured path read with it becomes the base, and the
/// draft follows it unless the user had edited the draft.
pub open spec fn installed<C, E, L, O>(
    m: MaintenanceModel<C, E, L, O>,
    incoming: MaintenanceWorkspace<C, E, L>,
) -> MaintenanceModel<C, E, L, O> {
    let ws = merged_workspace(m.workspace, incoming);
    match ws.app_path {
        Some(p) => MaintenanceModel {
            workspace: Some(ws),
            revision: Some(p.revision),
            base: p.value@,
            draft: if path_is_dirty(m) {
                m.draft
            } else {
                p.value@
            },
            ..m
        },
        None => MaintenanceModel { workspace: Some(ws), ..m },
    }
}

/// The page after a save request with id `id` is sent.
pub open spec fn save_started<C, E, L, O>(m: MaintenanceModel<C, E, L, O>, id: u64) -> MaintenanceModel<
    C,
    E,
    L,
    O,
> {
    MaintenanceModel {
        last_request_id: id,
        save: MaintenanceOperationState {
            phase: MaintenanceOperationPhase::Running,
            current_request_id: id,
            error: None,
        },
        ..m
    }
}

/// A save cannot start: one is running, nothing was edited, or the path's
/// revision is unknown.
pub open spec fn save_blocked<C, E, L, O>(m: MaintenanceModel<C, E, L, O>) -> bool {
    m.save.phase == MaintenanceOperationPhase::Running || !path_is_dirty(m) || m.revision is None
}

/// Saving would clear a configured path, which asks for confirmation first.
pub open spec fn save_clears<C, E, L, O>(m: MaintenanceModel<C, E, L, O>) -> bool {
    trimmed(m.draft).len() == 0 && trimmed(m.base).len() != 0
}

/// The document the page shows: the logs, when they were read, or the
/// diagnostics report.
pub open spec fn document_text<C, E, L, O>(m: MaintenanceModel<C, E, L, O>) -> Option<Seq<char>> {
    match m.workspace {
        None => None,
        Some(ws) => match m.document_tab {
            MaintenanceDocumentTab::Logs => match ws.logs {
                SectionValue::Available(text) => Some(text@),
                SectionValue::Unavailable => None,
            },
            MaintenanceDocumentTab::Report => Some(ws.diagnostics@),
        },
    }
}

/// The maintenance page: loading its workspace, editing and saving the Codex
/// app path (clearing it only after confirmation), launching Codex, the
/// file dialog for the path, and leaving the page with unsaved edits.
pub struct MaintenanceViewState<C, E, L, O> {
    pub load_phase: MaintenanceLoadPhase,
    pub current_load_request_id: u64,
    pub load_error: Option<MaintenanceFailureKind>,
    pub workspace: Option<MaintenanceWorkspace<C, E, L>>,
    app_path_base: AppPathDraft,
    app_path_revision: Option<u64>,
    pub app_path_draft: AppPathDraft,
    pub debug_port: u16,
    pub helper_port: u16,
    pub document_tab: MaintenanceDocumentTab,
    pub log_limit: usize,
    pub save: MaintenanceOperationState,
    pub launch: MaintenanceOperationState,
    pub launch_outcome: Option<O>,
    pub picker_error: Option<PathPickerErrorKind>,
    pending_picker: Option<(u64, PathPickerTarget)>,
    clear_confirmation: Option<SaveCodexAppPath>,
    pending_transition: Option<MaintenanceTransition>,
    conflict: bool,
    next_request_id: u64,
}

impl<C, E, L, O> View for MaintenanceViewState<C, E, L, O> {
    type V = MaintenanceModel<C, E, L, O>;

    closed spec fn view(&self) -> MaintenanceModel<C, E, L, O> {
        MaintenanceModel {
            load_phase: self.load_phase,
            current_load_request_id: self.current_load_request_id,
            load_error: self.load_error,
            workspace: self.workspace,
            base: self.app_path_base@,
            revision: self.app_path_revision,
            draft: self.app_path_draft@,
            debug_port: self.debug_port,
            helper_port: self.helper_port,
            document_tab: self.document_tab,
            log_limit: self.log_limit,
            save: self.save,
            launch: self.launch,
            launch_outcome: self.launch_outcome,
            picker_error: self.picker_error,
            pending_picker: self.pending_picker,
            clear_request: match self.clear_confirmation {
                Some(r) => Some(
                    ClearRequestModel {
                        expected_revision: r.expected_revision,
                        path: r.path@,
                        confirmed_clear: r.confirmed_clear,
                    },
                ),
                None => None,
            },
            pending_transition: self.pending_transition,
            conflict: self.conflict,
            last_request_id: self.next_request_id,
        }
    }
}

impl<C, E, L, O> Default for MaintenanceViewState<C, E, L, O> {
    fn default() -> (state: Self)
        ensures
            state@ == (MaintenanceModel::<C, E, L, O> {
                load_phase: MaintenanceLoadPhase::Idle,
                current_load_request_id: 0,
                load_error: None,
                workspace: None,
                base: Seq::empty(),
                revision: None,
                draft: Seq::empty(),
                debug_port: DEFAULT_DEBUG_PORT,
                helper_port: DEFAULT_HELPER_PORT,
                document_tab: MaintenanceDocumentTab::Logs,
                log_limit: DEFAULT_LOG_LIMIT,
                save: MaintenanceOperationState {
                    phase: MaintenanceOperationPhase::Idle,
                    current_request_id: 0,
                    error: None,
                },
                launch: MaintenanceOperationState {
                    phase: MaintenanceOperationPhase::Idle,
                    current_request_id: 0,
                    error: None,
                },
                launch_outcome: None,
                picker_error: None,
                pending_picker: None,
                clear_request: None,
                pending_transition: None,
                conflict: false,
                last_request_id: 0,
            }),
    {
        MaintenanceViewState {
            load_phase: MaintenanceLoadPhase::Idle,
            current_load_request_id: 0,
            load_error: None,
            workspace: None,
            app_path_base: AppPathDraft::default(),
            app_path_revision: None,
            app_path_draft: AppPathDraft::default(),
            debug_port: DEFAULT_DEBUG_PORT,
            helper_port: DEFAULT_HELPER_PORT,
            document_tab: MaintenanceDocumentTab::Logs,
            log_limit: DEFAULT_LOG_LIMIT,
            save: MaintenanceOperationState::default(),
            launch: MaintenanceOperationState::default(),
            launch_outcome: None,
            picker_error: None,
            pending_picker: None,
            clear_confirmation: None,
            pending_transition: None,
            conflict: false,
            next_request_id: 0,
        }
    }
}

impl<C, E, L, O> MaintenanceViewState<C, E, L, O> {
    /// Starts loading the workspace; a page that shows one refreshes it.
    pub fn begin_load(&mut self) -> (request_id: u64)
        requires
            old(self)@.last_request_id < u64::MAX,
        ensures
            request_id == old(self)@.last_request_id + 1,
            final(self)@ == (MaintenanceModel {
                last_request_id: request_id,
                current_load_request_id: request_id,
                load_phase: if old(self)@.workspace is Some {
                    MaintenanceLoadPhase::Refreshing
                } else {
                    MaintenanceLoadPhase::Loading
                },
                ..old(self)@
            }),
    {
        let request_id = self.issue_request_id();
        self.current_load_request_id = request_id;
        self.load_phase = if self.workspace.is_some() {
            MaintenanceLoadPhase::Refreshing
        } else {
            MaintenanceLoadPhase::Loading
        };
        request_id
    }

    /// Takes the answer to a load; answers to older loads are ignored.
    pub fn apply_load_response(
        &mut self,
        request_id: u64,
        result: Result<MaintenanceWorkspace<C, E, L>, MaintenanceFailureKind>,
    ) -> (applied: bool)
        ensures
            applied == (request_id == old(self)@.current_load_request_id),
            !applied ==> final(self)@ == old(self)@,
            applied ==> final(self)@ == match result {
                Ok(ws) => MaintenanceModel {
                    load_error: None,
                    load_phase: MaintenanceLoadPhase::Ready,
                    ..installed(old(self)@, ws)
                },
                Err(error) => MaintenanceModel {
                    load_error: Some(error),
                    load_phase: MaintenanceLoadPhase::Error,
                    ..old(self)@
                },
            },
    {
        if request_id != self.current_load_request_id {
            return false;
        }
        match result {
            Ok(workspace) => {
                self.install_workspace(workspace);
                self.load_error = None;
                self.load_phase = MaintenanceLoadPhase::Ready;
            },
            Err(error) => {
                self.load_error = Some(error);
                self.load_phase = MaintenanceLoadPhase::Error;
            },
        }
        true
    }

    /// Replaces the edited path and forgets a save conflict.
    pub fn set_app_path(&mut self, path: String)
        ensures
            final(self)@ == (MaintenanceModel { draft: path@, conflict: false, ..old(self)@ }),
    {
        self.app_path_draft = AppPathDraft::new(path);
        self.conflict = false;
    }

    /// The edited path differs from the stored one.
    pub fn path_dirty(&self) -> (dirty: bool)
        ensures
            dirty == path_is_dirty(self@),
    {
        !text_eq(self.app_path_draft.expose(), self.app_path_base.expose())
    }

    fn install_workspace(&mut self, incoming: MaintenanceWorkspace<C, E, L>)
        ensures
            final(self)@ == installed(old(self)@, incoming),
    {
        let was_dirty = self.path_dirty();
        let previous = self.workspace.take();
        let workspace = merge_partial_workspace(previous, incoming);
        match &workspace.app_path {
            Some(path) => {
                self.app_path_revision = Some(path.revision);
                self.app_path_base = AppPathDraft::new(path.value.clone());
                if !was_dirty {
                    self.app_path_draft = self.app_path_base.duplicate();
                }
            },
            None => {},
        }
        self.workspace = Some(workspace);
    }

    fn start_save(&mut self, request: SaveCodexAppPath) -> (started: (u64, SaveCodexAppPath))
        requires
            old(self)@.last_request_id < u64::MAX,
        ensures
            started.0 == old(self)@.last_request_id + 1,
            started.1 == request,
            final(self)@ == save_started(old(self)@, started.0),
    {
        let request_id = self.issue_request_id();
        self.save.current_request_id = request_id;
        self.save.phase = MaintenanceOperationPhase::Running;
        self.save.error = None;
        (request_id, request)
    }

    /// Starts saving the edited path. Clearing a configured path only records
    /// a clear that waits for confirmation.
    pub fn begin_save(&mut self) -> (started: Option<(u64, SaveCodexAppPath)>)
        requires
            !save_blocked(old(self)@) && !save_clears(old(self)@) ==> old(self)@.last_request_id
                < u64::MAX,
        ensures
            save_blocked(old(self)@) ==> started is None && final(self)@ == old(self)@,
            !save_blocked(old(self)@) && save_clears(old(self)@) ==> started is None && final(self)@ == (MaintenanceModel {
                clear_request: if old(self)@.clear_request is None {
                    Some(
                        ClearRequestModel {
                            expected_revision: old(self)@.revision.unwrap(),
                            path: old(self)@.draft,
                            confirmed_clear: true,
                        },
                    )
                } else {
                    old(self)@.clear_request
                },
                ..old(self)@
            }),
            !save_blocked(old(self)@) && !save_clears(old(self)@) ==> (started matches Some(
                (id, request),
            ) && id == old(self)@.last_request_id + 1 && request.expected_revision == old(self)@.revision.unwrap() && request.path@ == old(self)@.draft && request.confirmed_clear
                == (trimmed(old(self)@.draft).len() == 0) && final(self)@ == save_started(
                old(self)@,
                id,
            )),
    {
        if self.save.phase == MaintenanceOperationPhase::Running || !self.path_dirty() {
            return None;
        }
        let revision = match self.app_path_revision {
            Some(revision) => revision,
            None => {
                return None;
            },
        };
        let request = SaveCodexAppPath {
            expected_revision: revision,
            path: self.app_path_draft.expose().to_string(),
            confirmed_clear: is_blank(self.app_path_draft.expose()),
        };
        if request.confirmed_clear && !is_blank(self.app_path_base.expose()) {
            if self.clear_confirmation.is_none() {
                self.clear_confirmation = Some(request);
            }
            return None;
        }
        Some(self.start_save(request))
    }

    /// Asks to clear the configured path; the clear waits for confirmation.
    pub fn request_clear(&mut self) -> (requested: bool)
        ensures
            requested == (old(self)@.save.phase != MaintenanceOperationPhase::Running && old(self)@.clear_request is None && trimmed(old(self)@.base).len() != 0 && old(self)@.revision is Some),
            requested ==> final(self)@ == (MaintenanceModel {
                clear_request: Some(
                    ClearRequestModel {
                        expected_revision: old(self)@.revision.unwrap(),
                        path: Seq::empty(),
                        confirmed_clear: true,
                    },
                ),
                ..old(self)@
            }),
            !requested ==> final(self)@ == old(self)@,
    {
        if self.save.phase == MaintenanceOperationPhase::Running || self.clear_confirmation.is_some()
            || is_blank(self.app_path_base.expose()) {
            return false;
        }
        let expected_revision = match self.app_path_revision {
            Some(revision) => revision,
            None => {
                return false;
            },
        };
        self.clear_confirmation = Some(
            SaveCodexAppPath { expected_revision, path: String::new(), confirmed_clear: true },
        );
        true
    }

    /// Sends the clear that waited for confirmation, unless a save runs; the
    /// confirmation is used up either way.
    pub fn confirm_clear(&mut self) -> (started: Option<(u64, SaveCodexAppPath)>)
        requires
            old(self)@.clear_request is Some && old(self)@.save.phase
                != MaintenanceOperationPhase::Running ==> old(self)@.last_request_id < u64::MAX,
        ensures
            old(self)@.clear_request is None ==> started is None && final(self)@ == old(self)@,
            old(self)@.clear_request is Some && old(self)@.save.phase
                == MaintenanceOperationPhase::Running ==> started is None && final(self)@ == (
            MaintenanceModel { clear_request: None, ..old(self)@ }),
            old(self)@.clear_request is Some && old(self)@.save.phase
                != MaintenanceOperationPhase::Running ==> (started matches Some((id, request))
                && id == old(self)@.last_request_id + 1 && Some(
                ClearRequestModel {
                    expected_revision: request.expected_revision,
                    path: request.path@,
                    confirmed_clear: request.confirmed_clear,
                },
            ) == old(self)@.clear_request && final(self)@ == (MaintenanceModel {
                clear_request: None,
                ..save_started(old(self)@, id)
            })),
    {
        let request = match self.clear_confirmation.take() {
            Some(request) => request,
            None => {
                return None;
            },
        };
        if self.save.phase == MaintenanceOperationPhase::Running {
            return None;
        }
        Some(self.start_save(request))
    }

    /// Drops the clear that waited for confirmation.
    pub fn cancel_clear(&mut self)
        ensures
            final(self)@ == (MaintenanceModel { clear_request: None, ..old(self)@ }),
    {
        self.clear_confirmation = None;
    }

    pub fn clear_confirmation_visible(&self) -> (visible: bool)
        ensures
            visible == self@.clear_request is Some,
    {
        self.clear_confirmation.is_some()
    }

    /// Takes the answer to the running save; other answers are ignored. A
    /// failure may bring the workspace read again, which is installed.
    pub fn apply_save_response(
        &mut self,
        request_id: u64,
        result: Result<MaintenanceWorkspace<C, E, L>, MaintenanceFailure<C, E, L>>,
    ) -> (applied: bool)
        ensures
            applied == (request_id == old(self)@.save.current_request_id && old(self)@.save.phase
                == MaintenanceOperationPhase::Running),
            !applied ==> final(self)@ == old(self)@,
            applied ==> final(self)@ == match result {
                Ok(ws) => MaintenanceModel {
                    save: MaintenanceOperationState {
                        phase: MaintenanceOperationPhase::Ready,
                        current_request_id: request_id,
                        error: None,
                    },
                    conflict: false,
                    ..installed(old(self)@, ws)
                },
                Err(failure) => MaintenanceModel {
                    save: MaintenanceOperationState {
                        phase: MaintenanceOperationPhase::Error,
                        current_request_id: request_id,
                        error: Some(failure.kind),
                    },
                    conflict: failure.kind == MaintenanceFailureKind::SettingsConflict,
                    ..match failure.refreshed_workspace {
                        Some(ws) => installed(old(self)@, ws),
                        None => old(self)@,
                    }
                },
            },
    {
        if request_id != self.save.current_request_id || self.save.phase
            != MaintenanceOperationPhase::Running {
            return false;
        }
        match result {
            Ok(workspace) => {
                self.install_workspace(workspace);
                self.save.phase = MaintenanceOperationPhase::Ready;
                self.save.error = None;
                self.conflict = false;
            },
            Err(failure) => {
                let kind = failure.kind;
                match failure.refreshed_workspace {
                    Some(workspace) => self.install_workspace(workspace),
                    None => {},
                }
                self.conflict = kind == MaintenanceFailureKind::SettingsConflict;
                self.save.phase = MaintenanceOperationPhase::Error;
                self.save.error = Some(kind);
            },
        }
        true
    }

    pub fn conflict_visible(&self) -> (visible: bool)
        ensures
            visible == self@.conflict,
    {
        self.conflict
    }

    /// Starts Codex from the edited path with the page's ports, unless a
    /// launch runs.
    pub fn begin_launch(&mut self) -> (started: Option<(u64, LaunchCodex)>)
        requires
            old(self)@.launch.phase != MaintenanceOperationPhase::Running ==> old(self)@.last_request_id < u64::MAX,
        ensures
            old(self)@.launch.phase == MaintenanceOperationPhase::Running ==> started is None
                && final(self)@ == old(self)@,
            old(self)@.launch.phase != MaintenanceOperationPhase::Running ==> (started matches Some(
                (id, launch),
            ) && id == old(self)@.last_request_id + 1 && launch.app_path@ == old(self)@.draft
                && launch.debug_port == old(self)@.debug_port && launch.helper_port == old(self)@.helper_port && final(self)@ == (MaintenanceModel {
                last_request_id: id,
                launch: MaintenanceOperationState {
                    phase: MaintenanceOperationPhase::Running,
                    current_request_id: id,
                    error: None,
                },
                launch_outcome: None,
                ..old(self)@
            })),
    {
        if self.launch.phase == MaintenanceOperationPhase::Running {
            return None;
        }
        let request_id = self.issue_request_id();
        self.launch.current_request_id = request_id;
        self.launch.phase = MaintenanceOperationPhase::Running;
        self.launch.error = None;
        self.launch_outcome = None;
        Some(
            (
                request_id,
                LaunchCodex::native(
                    self.app_path_draft.expose().to_string(),
                    self.debug_port,
                    self.helper_port,
                ),
            ),
        )
    }

    /// Takes the answer to the running launch; other answers are ignored.
    pub fn apply_launch_response(&mut self, request_id: u64, result: Result<O, MaintenanceFailureKind>) -> (applied: bool)
        ensures
            applied == (request_id == old(self)@.launch.current_request_id && old(self)@.launch.phase == MaintenanceOperationPhase::Running),
            !applied ==> final(self)@ == old(self)@,
            applied ==> final(self)@ == match result {
                Ok(outcome) => MaintenanceModel {
                    launch_outcome: Some(outcome),
                    launch: MaintenanceOperationState {
                        phase: MaintenanceOperationPhase::Ready,
                        current_request_id: request_id,
                        error: None,
                    },
                    ..old(self)@
                },
                Err(error) => MaintenanceModel {
                    launch_outcome: None,
                    launch: MaintenanceOperationState {
                        phase: MaintenanceOperationPhase::Error,
                        current_request_id: request_id,
                        error: Some(error),
                    },
                    ..old(self)@
                },
            },
    {
        if request_id != self.launch.current_request_id || self.launch.phase
            != MaintenanceOperationPhase::Running {
            return false;
        }
        match result {
            Ok(outcome) => {
                self.launch_outcome = Some(outcome);
                self.launch.phase = MaintenanceOperationPhase::Ready;
                self.launch.error = None;
            },
            Err(error) => {
                self.launch_outcome = None;
                self.launch.phase = MaintenanceOperationPhase::Error;
                self.launch.error = Some(error);
            },
        }
        true
    }

    pub fn set_document_tab(&mut self, tab: MaintenanceDocumentTab)
        ensures
            final(self)@ == (MaintenanceModel { document_tab: tab, ..old(self)@ }),
    {
        self.document_tab = tab;
    }

    /// Shows `limit` log lines; only 50, 100 and 200 are offered.
    pub fn set_log_limit(&mut self, limit: usize) -> (accepted: bool)
        ensures
            accepted == (limit == 50 || limit == 100 || limit == 200),
            accepted ==> final(self)@ == (MaintenanceModel { log_limit: limit, ..old(self)@ }),
            !accepted ==> final(self)@ == old(self)@,
    {
        if !(limit == 50 || limit == 100 || limit == 200) {
            return false;
        }
        self.log_limit = limit;
        true
    }

    /// The text of the document the page shows.
    pub fn active_document_text(&self) -> (text: Option<&str>)
        ensures
            match text {
                Some(t) => document_text(self@) == Some(t@),
                None => document_text(self@) is None,
            },
    {
        let workspace = match &self.workspace {
            Some(workspace) => workspace,
            None => {
                return None;
            },
        };
        match self.document_tab {
            MaintenanceDocumentTab::Logs => match workspace.logs.value() {
                Some(logs) => Some(logs.as_str()),
                None => None,
            },
            MaintenanceDocumentTab::Report => Some(workspace.diagnostics.as_str()),
        }
    }

    /// Opens a file dialog for `target`, unless one is open already.
    pub fn begin_picker(&mut self, target: PathPickerTarget) -> (request: Option<PathPickerRequest>)
        requires
            old(self)@.pending_picker is None ==> old(self)@.last_request_id < u64::MAX,
        ensures
            old(self)@.pending_picker is Some ==> request is None && final(self)@ == old(self)@,
            old(self)@.pending_picker is None ==> request == Some(
                PathPickerRequest { request_id: (old(self)@.last_request_id + 1) as u64, target },
            ) && final(self)@ == (MaintenanceModel {
                last_request_id: (old(self)@.last_request_id + 1) as u64,
                pending_picker: Some(((old(self)@.last_request_id + 1) as u64, target)),
                picker_error: None,
                ..old(self)@
            }),
    {
        if self.pending_picker.is_some() {
            return None;
        }
        let request_id = self.issue_request_id();
        self.pending_picker = Some((request_id, target));
        self.picker_error = None;
        Some(PathPickerRequest::new(request_id, target))
    }

    /// Takes the answer of the open file dialog; a chosen path replaces the
    /// edited one. Answers to other dialogs are ignored.
    pub fn apply_picker_response(&mut self, response: PathPickerResponse) -> (applied: bool)
        ensures
            applied == (old(self)@.pending_picker == Some((response.request_id, response.target))),
            !applied ==> final(self)@ == old(self)@,
            applied ==> final(self)@ == (MaintenanceModel {
                pending_picker: None,
                picker_error: response.error,
                draft: match response.path {
                    Some(path) => path@,
                    None => old(self)@.draft,
                },
                conflict: if response.path is Some {
                    false
                } else {
                    old(self)@.conflict
                },
                ..old(self)@
            }),
    {
        let matches_pending = match self.pending_picker {
            Some((id, target)) => id == response.request_id && target == response.target,
            None => false,
        };
        if !matches_pending {
            return false;
        }
        self.pending_picker = None;
        self.picker_error = response.error;
        match response.path {
            Some(path) => self.set_app_path(path),
            None => {},
        }
        true
    }

    /// Forgets the open file dialog and its last error.
    pub fn invalidate_picker(&mut self)
        ensures
            final(self)@ == (MaintenanceModel {
                pending_picker: None,
                picker_error: None,
                ..old(self)@
            }),
    {
        self.pending_picker = None;
        self.picker_error = None;
    }

    pub fn picker_pending(&self) -> (pending: bool)
        ensures
            pending == self@.pending_picker is Some,
    {
        self.pending_picker.is_some()
    }

    /// Leaves the page or reloads it at once when nothing was edited;
    /// otherwise records the transition until the edit is discarded.
    pub fn request_transition(&mut self, transition: MaintenanceTransition) -> (allowed: bool)
        ensures
            allowed == !path_is_dirty(old(self)@),
            allowed ==> final(self)@ == old(self)@,
            !allowed ==> final(self)@ == (MaintenanceModel {
                pending_transition: if old(self)@.pending_transition is None {
                    Some(transition)
                } else {
                    old(self)@.pending_transition
                },
                ..old(self)@
            }),
    {
        if !self.path_dirty() {
            return true;
        }
        if self.pending_transition.is_none() {
            self.pending_transition = Some(transition);
        }
        false
    }

    /// Discards the edited path and hands back the recorded transition.
    pub fn confirm_discard_transition(&mut self) -> (transition: Option<MaintenanceTransition>)
        ensures
            transition == old(self)@.pending_transition,
            old(self)@.pending_transition is None ==> final(self)@ == old(self)@,
            old(self)@.pending_transition is Some ==> final(self)@ == (MaintenanceModel {
                pending_transition: None,
                pending_picker: None,
                picker_error: None,
                clear_request: None,
                draft: old(self)@.base,
                conflict: false,
                ..old(self)@
            }),
    {
        let transition = match self.pending_transition.take() {
            Some(transition) => transition,
            None => {
                return None;
            },
        };
        self.invalidate_picker();
        self.cancel_clear();
        self.app_path_draft = self.app_path_base.duplicate();
        self.conflict = false;
        Some(transition)
    }

    pub fn cancel_transition(&mut self)
        ensures
            final(self)@ == (MaintenanceModel { pending_transition: None, ..old(self)@ }),
    {
        self.pending_transition = None;
    }

    pub fn discard_confirmation_visible(&self) -> (visible: bool)
        ensures
            visible == self@.pending_transition is Some,
    {
        self.pending_transition.is_some()
    }

    fn issue_request_id(&mut self) -> (request_id: u64)
        requires
            old(self)@.last_request_id < u64::MAX,
        ensures
            request_id == old(self)@.last_request_id + 1,
            final(self)@ == (MaintenanceModel { last_request_id: request_id, ..old(self)@ }),
    {
        self.next_request_id = self.next_request_id + 1;
        self.next_request_id
    }
}

/// A reload never overwrites a path the user has edited, and a path the user
/// has not edited follows the stored one, so it stays unedited.
pub proof fn law_reload_keeps_edited_path<C, E, L, O>(
    m: MaintenanceModel<C, E, L, O>,
    incoming: MaintenanceWorkspace<C, E, L>,
)
    ensures
        path_is_dirty(m) ==> installed(m, incoming).draft == m.draft,
        !path_is_dirty(m) ==> !path_is_dirty(installed(m, incoming)),
{
}

/// Merging never loses a section that either workspace could read, and what
/// the incoming workspace read wins over the previous one.
pub proof fn law_merge_keeps_read_sections<C, E, L>(
    previous: MaintenanceWorkspace<C, E, L>,
    incoming: MaintenanceWorkspace<C, E, L>,
)
    ensures
        ({
            let merged = merged_workspace(Some(previous), incoming);
            &&& (merged.app_path is Some <==> (incoming.app_path is Some
                || previous.app_path is Some))
            &&& (incoming.app_path is Some ==> merged.app_path == incoming.app_path)
            &&& (merged.codex_app is Available <==> (incoming.codex_app is Available
                || previous.codex_app is Available))
            &&& (incoming.codex_app is Available ==> merged.codex_app == incoming.codex_app)
            &&& (merged.entrypoints is Available <==> (incoming.entrypoints is Available
                || previous.entrypoints is Available))
            &&& (incoming.entrypoints is Available ==> merged.entrypoints
                == incoming.entrypoints)
            &&& (merged.latest_launch is Available <==> (incoming.latest_launch is Available
                || previous.latest_launch is Available))
            &&& (incoming.latest_launch is Available ==> merged.latest_launch
                == incoming.latest_launch)
            &&& (merged.logs is Available <==> (incoming.logs is Available
                || previous.logs is Available))
            &&& (incoming.logs is Available ==> merged.logs == incoming.logs)
            &&& merged.diagnostics == incoming.diagnostics
        }),
{
}

/// A first workspace is shown as it arrived.
pub proof fn law_first_workspace_is_shown_as_read<C, E, L>(incoming: MaintenanceWorkspace<C, E, L>)
    ensures
        merged_workspace(None, incoming) == incoming,
{
}

} // verus!
