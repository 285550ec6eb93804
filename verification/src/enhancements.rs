use vstd::prelude::*;

verus! {

/// Where the enhancements page is in loading its settings.
#[derive(Debug, Clone, Copy, PartialEq, Eq, Structural)]
pub enum EnhancementLoadPhase {
    Idle,
    Loading,
    Ready,
    Refreshing,
    Error,
}

impl Default for EnhancementLoadPhase {
    fn default() -> (phase: Self)
        ensures
            phase == EnhancementLoadPhase::Idle,
    {
        EnhancementLoadPhase::Idle
    }
}

/// Where a save or reset of the enhancement settings stands.
#[derive(Debug, Clone, Copy, PartialEq, Eq, Structural)]
pub enum EnhancementOperationPhase {
    Idle,
    Saving,
    Resetting,
    Ready,
    Error,
}

impl Default for EnhancementOperationPhase {
    fn default() -> (phase: Self)
        ensures
            phase == EnhancementOperationPhase::Idle,
    {
        EnhancementOperationPhase::Idle
    }
}

/// Why an enhancement settings operation failed.
#[derive(Debug, Clone, Copy, PartialEq, Eq, Structural)]
pub enum EnhancementFailureKind {
    SettingsReadFailed,
    SettingsWriteFailed,
    SettingsConflict,
    InvalidRevision,
    ConfirmationRequired,
    WorkerStopped,
}

/// How Codex is started: patched in full, or through the compatibility
/// relay.
#[derive(Debug, Clone, Copy, PartialEq, Eq, Structural)]
pub enum LaunchMode {
    Patch,
    Relay,
}

/// The enhancement switches of Codex++.
#[derive(Debug, Clone, Copy, PartialEq, Eq, Structural)]
pub struct EnhancementSettings {
    pub enabled: bool,
    pub launch_mode: LaunchMode,
    pub computer_use_guard: bool,
    pub plugin_marketplace_unlock: bool,
    pub plugin_auto_expand: bool,
    pub model_whitelist_unlock: bool,
    pub service_tier_controls: bool,
    pub session_delete: bool,
    pub markdown_export: bool,
    pub paste_fix: bool,
    pub project_move: bool,
    pub thread_id_badge: bool,
    pub conversation_view: bool,
    pub thread_scroll_restore: bool,
    pub pet_real_mouse_look: bool,
    pub force_chinese_locale: bool,
    pub fast_startup: bool,
    pub native_menu_placement: bool,
    pub native_menu_localization: bool,
    pub zed_remote_open: bool,
    pub upstream_worktree_create: bool,
}

/// Every switch off, in patch mode: what the page holds before its first
/// load.
pub open spec fn unset_enhancements() -> EnhancementSettings {
    EnhancementSettings {
        enabled: false,
        launch_mode: LaunchMode::Patch,
        computer_use_guard: false,
        plugin_marketplace_unlock: false,
        plugin_auto_expand: false,
        model_whitelist_unlock: false,
        service_tier_controls: false,
        session_delete: false,
        markdown_export: false,
        paste_fix: false,
        project_move: false,
        thread_id_badge: false,
        conversation_view: false,
        thread_scroll_restore: false,
        pet_real_mouse_look: false,
        force_chinese_locale: false,
        fast_startup: false,
        native_menu_placement: false,
        native_menu_localization: false,
        zed_remote_open: false,
        upstream_worktree_create: false,
    }
}

impl Default for EnhancementSettings {
    fn default() -> (settings: Self)
        ensures
            settings == unset_enhancements(),
    {
        EnhancementSettings {
            enabled: false,
            launch_mode: LaunchMode::Patch,
            computer_use_guard: false,
            plugin_marketplace_unlock: false,
            plugin_auto_expand: false,
            model_whitelist_unlock: false,
            service_tier_controls: false,
            session_delete: false,
            markdown_export: false,
            paste_fix: false,
            project_move: false,
            thread_id_badge: false,
            conversation_view: false,
            thread_scroll_restore: false,
            pet_real_mouse_look: false,
            force_chinese_locale: false,
            fast_startup: false,
            native_menu_placement: false,
            native_menu_localization: false,
            zed_remote_open: false,
            upstream_worktree_create: false,
        }
    }
}

/// The stored enhancement settings with the revision they were read at.
#[derive(Debug, Clone, Copy, PartialEq, Eq, Structural)]
pub struct EnhancementWorkspace {
    pub revision: u64,
    pub settings: EnhancementSettings,
}

/// A request to store the enhancement settings against a revision.
#[derive(Debug, Clone, Copy, PartialEq, Eq, Structural)]
pub struct SaveEnhancements {
    pub expected_revision: u64,
    pub settings: EnhancementSettings,
}

/// A confirmed request to reset the enhancement settings to their defaults.
#[derive(Debug, Clone, Copy, PartialEq, Eq, Structural)]
pub struct ResetEnhancements {
    pub expected_revision: u64,
    pub confirmed: bool,
}

/// A failed save or reset, with the settings the service read again when it
/// noticed the failure, if it did.
#[derive(Debug, Clone, Copy, PartialEq, Eq, Structural)]
pub struct EnhancementFailure {
    pub kind: EnhancementFailureKind,
    pub refreshed_workspace: Option<EnhancementWorkspace>,
}

impl EnhancementFailure {
    pub fn new(kind: EnhancementFailureKind) -> (failure: Self)
        ensures
            failure == (EnhancementFailure { kind, refreshed_workspace: None }),
    {
        EnhancementFailure { kind, refreshed_workspace: None }
    }

    pub fn with_workspace(kind: EnhancementFailureKind, workspace: EnhancementWorkspace) -> (failure: Self)
        ensures
            failure == (EnhancementFailure { kind, refreshed_workspace: Some(workspace) }),
    {
        EnhancementFailure { kind, refreshed_workspace: Some(workspace) }
    }
}

/// The enhancements page as contracts see it.
pub struct EnhancementModel {
    pub initialized: bool,
    pub load_phase: EnhancementLoadPhase,
    pub current_load_request_id: u64,
    pub load_error: Option<EnhancementFailureKind>,
    pub operation_phase: EnhancementOperationPhase,
    pub current_operation_request_id: u64,
    pub error: Option<EnhancementFailureKind>,
    pub revision: Option<u64>,
    pub saved: EnhancementSettings,
    pub draft: EnhancementSettings,
    pub submitted: Option<EnhancementSettings>,
    pub conflict_workspace: Option<EnhancementWorkspace>,
    pub reset_confirmation: bool,
    pub last_request_id: u64,
}

/// The page before its first load.
pub open spec fn initial_enhancements() -> EnhancementModel {
    EnhancementModel {
        initialized: false,
        load_phase: EnhancementLoadPhase::Idle,
        current_load_request_id: 0,
        load_error: None,
        operation_phase: EnhancementOperationPhase::Idle,
        current_operation_request_id: 0,
        error: None,
        revision: None,
        saved: unset_enhancements(),
        draft: unset_enhancements(),
        submitted: None,
        conflict_workspace: None,
        reset_confirmation: false,
        last_request_id: 0,
    }
}

/// The settings were read and the draft differs from them.
pub open spec fn enhancements_dirty(m: EnhancementModel) -> bool {
    m.initialized && m.draft != m.saved
}

/// A save or a reset runs.
pub open spec fn mutation_running(m: EnhancementModel) -> bool {
    m.operation_phase == EnhancementOperationPhase::Saving || m.operation_phase
        == EnhancementOperationPhase::Resetting
}

/// The page after stored settings arrive; the draft is kept when asked to.
pub open spec fn enhancements_installed(
    m: EnhancementModel,
    ws: EnhancementWorkspace,
    preserve_draft: bool,
) -> EnhancementModel {
    EnhancementModel {
        revision: Some(ws.revision),
        saved: ws.settings,
        draft: if preserve_draft {
            m.draft
        } else {
            ws.settings
        },
        ..m
    }
}

/// The page after a load answer; answers to older loads change nothing, and
/// a draft with edits survives stored settings that arrive.
pub open spec fn enhancement_load_response(
    m: EnhancementModel,
    request_id: u64,
    result: Result<EnhancementWorkspace, EnhancementFailureKind>,
) -> EnhancementModel {
    if request_id != m.current_load_request_id {
        m
    } else {
        match result {
            Ok(ws) => EnhancementModel {
                initialized: true,
                load_phase: EnhancementLoadPhase::Ready,
                load_error: None,
                ..enhancements_installed(m, ws, enhancements_dirty(m))
            },
            Err(error) => EnhancementModel {
                load_phase: EnhancementLoadPhase::Error,
                load_error: Some(error),
                ..m
            },
        }
    }
}

/// A save or reset answer is taken only for the one that runs.
pub open spec fn mutation_answers(
    m: EnhancementModel,
    request_id: u64,
    expected_phase: EnhancementOperationPhase,
) -> bool {
    request_id == m.current_operation_request_id && m.operation_phase == expected_phase
}

/// The page after the answer to a save or reset: stored settings keep a
/// draft edited while the request ran; a failure forgets the revision, so
/// nothing is saved until the settings are read again, and keeps the
/// settings read again for an explicit reload.
pub open spec fn mutation_response(
    m: EnhancementModel,
    request_id: u64,
    expected_phase: EnhancementOperationPhase,
    result: Result<EnhancementWorkspace, EnhancementFailure>,
) -> EnhancementModel {
    if !mutation_answers(m, request_id, expected_phase) {
        m
    } else {
        match result {
            Ok(ws) => {
                let preserve = m.submitted matches Some(value) && m.draft != value;
                EnhancementModel {
                    operation_phase: EnhancementOperationPhase::Ready,
                    error: None,
                    conflict_workspace: None,
                    submitted: None,
                    ..enhancements_installed(m, ws, preserve)
                }
            },
            Err(failure) => EnhancementModel {
                operation_phase: EnhancementOperationPhase::Error,
                error: Some(failure.kind),
                conflict_workspace: failure.refreshed_workspace,
                revision: None,
                submitted: None,
                ..m
            },
        }
    }
}

/// The enhancements page: the stored settings and the draft, a save, a
/// reset behind a confirmation, and reloading after a conflict.
#[derive(Debug)]
pub struct EnhancementViewState {
    pub initialized: bool,
    pub load_phase: EnhancementLoadPhase,
    pub current_load_request_id: u64,
    pub load_error: Option<EnhancementFailureKind>,
    pub operation_phase: EnhancementOperationPhase,
    pub current_operation_request_id: u64,
    pub error: Option<EnhancementFailureKind>,
    revision: Option<u64>,
    saved: EnhancementSettings,
    draft: EnhancementSettings,
    submitted: Option<EnhancementSettings>,
    conflict_workspace: Option<EnhancementWorkspace>,
    reset_confirmation: bool,
    next_request_id: u64,
}

impl View for EnhancementViewState {
    type V = EnhancementModel;

    closed spec fn view(&self) -> EnhancementModel {
        EnhancementModel {
            initialized: self.initialized,
            load_phase: self.load_phase,
            current_load_request_id: self.current_load_request_id,
            load_error: self.load_error,
            operation_phase: self.operation_phase,
            current_operation_request_id: self.current_operation_request_id,
            error: self.error,
            revision: self.revision,
            saved: self.saved,
            draft: self.draft,
            submitted: self.submitted,
            conflict_workspace: self.conflict_workspace,
            reset_confirmation: self.reset_confirmation,
            last_request_id: self.next_request_id,
        }
    }
}

impl Default for EnhancementViewState {
    fn default() -> (state: Self)
        ensures
            state@ == initial_enhancements(),
    {
        let settings = EnhancementSettings::default();
        EnhancementViewState {
            initialized: false,
            load_phase: EnhancementLoadPhase::Idle,
            current_load_request_id: 0,
            load_error: None,
            operation_phase: EnhancementOperationPhase::Idle,
            current_operation_request_id: 0,
            error: None,
            revision: None,
            saved: settings,
            draft: settings,
            submitted: None,
            conflict_workspace: None,
            reset_confirmation: false,
            next_request_id: 0,
        }
    }
}

impl EnhancementViewState {
    /// A page that shows settings read before it opened.
    pub fn from_workspace(workspace: EnhancementWorkspace) -> (state: Self)
        ensures
            state@ == (EnhancementModel {
                initialized: true,
                load_phase: EnhancementLoadPhase::Ready,
                ..enhancements_installed(initial_enhancements(), workspace, false)
            }),
    {
        let mut state = Self::default();
        state.install_workspace(&workspace, false);
        state.initialized = true;
        state.load_phase = EnhancementLoadPhase::Ready;
        state
    }

    pub fn draft(&self) -> (draft: &EnhancementSettings)
        ensures
            *draft == self@.draft,
    {
        &self.draft
    }

    /// The settings were read and the draft differs from them.
    pub fn is_dirty(&self) -> (dirty: bool)
        ensures
            dirty == enhancements_dirty(self@),
    {
        self.initialized && self.draft != self.saved
    }

    /// The individual switches can be changed: the settings were read, the
    /// enhancements are on, and no save or reset runs.
    pub fn subcontrols_enabled(&self) -> (enabled: bool)
        ensures
            enabled == (self@.initialized && self@.draft.enabled && !mutation_running(self@)),
            self@.operation_phase == EnhancementOperationPhase::Saving || self@.operation_phase
                == EnhancementOperationPhase::Resetting ==> !enabled,
    {
        self.initialized && self.draft.enabled && !self.mutation_running()
    }

    pub fn edit(&mut self, settings: EnhancementSettings)
        ensures
            final(self)@ == (EnhancementModel { draft: settings, ..old(self)@ }),
    {
        self.draft = settings;
    }

    /// Starts loading the settings.
    pub fn begin_load(&mut self) -> (request_id: u64)
        requires
            old(self)@.last_request_id < u64::MAX,
        ensures
            request_id == old(self)@.last_request_id + 1,
            final(self)@ == (EnhancementModel {
                last_request_id: request_id,
                current_load_request_id: request_id,
                load_phase: if old(self)@.initialized {
                    EnhancementLoadPhase::Refreshing
                } else {
                    EnhancementLoadPhase::Loading
                },
                ..old(self)@
            }),
    {
        let request_id = self.issue_request_id();
        self.current_load_request_id = request_id;
        self.load_phase = if self.initialized {
            EnhancementLoadPhase::Refreshing
        } else {
            EnhancementLoadPhase::Loading
        };
        request_id
    }

    /// Takes the answer to the latest load; a draft with edits is kept.
    pub fn apply_load_response(
        &mut self,
        request_id: u64,
        result: Result<EnhancementWorkspace, EnhancementFailureKind>,
    ) -> (applied: bool)
        ensures
            applied == (request_id == old(self)@.current_load_request_id),
            final(self)@ == enhancement_load_response(old(self)@, request_id, result),
    {
        if request_id != self.current_load_request_id {
            return false;
        }
        match result {
            Ok(workspace) => {
                self.install_loaded(&workspace);
            },
            Err(error) => {
                self.load_phase = EnhancementLoadPhase::Error;
                self.load_error = Some(error);
            },
        }
        true
    }

    /// Starts saving the draft, once the settings were read and edited and
    /// nothing else runs.
    pub fn begin_save(&mut self) -> (started: Option<(u64, SaveEnhancements)>)
        requires
            enhancements_dirty(old(self)@) && !mutation_running(old(self)@) && old(self)@.revision is Some
                ==> old(self)@.last_request_id < u64::MAX,
        ensures
            !(enhancements_dirty(old(self)@) && !mutation_running(old(self)@) && old(self)@.revision is Some)
                ==> started is None && final(self)@ == old(self)@,
            old(self)@.operation_phase == EnhancementOperationPhase::Saving || old(self)@.operation_phase
                == EnhancementOperationPhase::Resetting ==> started is None,
            enhancements_dirty(old(self)@) && !mutation_running(old(self)@) && old(self)@.revision is Some
                ==> started == Some(
                (
                    (old(self)@.last_request_id + 1) as u64,
                    SaveEnhancements {
                        expected_revision: old(self)@.revision.unwrap(),
                        settings: old(self)@.draft,
                    },
                ),
            ) && final(self)@ == (EnhancementModel {
                last_request_id: (old(self)@.last_request_id + 1) as u64,
                current_operation_request_id: (old(self)@.last_request_id + 1) as u64,
                operation_phase: EnhancementOperationPhase::Saving,
                error: None,
                submitted: Some(old(self)@.draft),
                ..old(self)@
            }),
    {
        if !self.initialized || !self.is_dirty() || self.mutation_running() {
            return None;
        }
        let expected_revision = match self.revision {
            Some(revision) => revision,
            None => {
                return None;
            },
        };
        let request_id = self.issue_request_id();
        self.current_operation_request_id = request_id;
        self.operation_phase = EnhancementOperationPhase::Saving;
        self.error = None;
        self.submitted = Some(self.draft);
        Some((request_id, SaveEnhancements { expected_revision, settings: self.draft }))
    }

    /// Takes the answer to the running save.
    pub fn apply_save_response(
        &mut self,
        request_id: u64,
        result: Result<EnhancementWorkspace, EnhancementFailure>,
    ) -> (applied: bool)
        ensures
            applied == mutation_answers(old(self)@, request_id, EnhancementOperationPhase::Saving),
            final(self)@ == mutation_response(
                old(self)@,
                request_id,
                EnhancementOperationPhase::Saving,
                result,
            ),
    {
        self.apply_mutation_response(request_id, EnhancementOperationPhase::Saving, result)
    }

    /// Asks to reset the settings; the reset waits for confirmation.
    pub fn request_reset(&mut self) -> (requested: bool)
        ensures
            requested == (old(self)@.initialized && !mutation_running(old(self)@) && !old(
                self,
            )@.reset_confirmation),
            requested ==> final(self)@ == (EnhancementModel {
                reset_confirmation: true,
                ..old(self)@
            }),
            !requested ==> final(self)@ == old(self)@,
            old(self)@.operation_phase == EnhancementOperationPhase::Saving || old(self)@.operation_phase
                == EnhancementOperationPhase::Resetting ==> !requested,
    {
        if !self.initialized || self.mutation_running() || self.reset_confirmation {
            return false;
        }
        self.reset_confirmation = true;
        true
    }

    pub fn reset_confirmation_pending(&self) -> (pending: bool)
        ensures
            pending == self@.reset_confirmation,
    {
        self.reset_confirmation
    }

    pub fn cancel_reset(&mut self)
        ensures
            final(self)@ == (EnhancementModel { reset_confirmation: false, ..old(self)@ }),
    {
        self.reset_confirmation = false;
    }

    /// Sends the confirmed reset, unless a save or reset runs. Without a
    /// known revision the confirmation is dropped and nothing is sent.
    pub fn confirm_reset(&mut self) -> (started: Option<(u64, ResetEnhancements)>)
        requires
            old(self)@.reset_confirmation && !mutation_running(old(self)@) && old(self)@.revision is Some
                ==> old(self)@.last_request_id < u64::MAX,
        ensures
            !old(self)@.reset_confirmation || mutation_running(old(self)@) ==> started is None
                && final(self)@ == old(self)@,
            old(self)@.operation_phase == EnhancementOperationPhase::Saving || old(self)@.operation_phase
                == EnhancementOperationPhase::Resetting ==> started is None,
            old(self)@.reset_confirmation && !mutation_running(old(self)@) && old(self)@.revision is None
                ==> started is None && final(self)@ == (EnhancementModel {
                reset_confirmation: false,
                ..old(self)@
            }),
            old(self)@.reset_confirmation && !mutation_running(old(self)@) && old(self)@.revision is Some
                ==> started == Some(
                (
                    (old(self)@.last_request_id + 1) as u64,
                    ResetEnhancements {
                        expected_revision: old(self)@.revision.unwrap(),
                        confirmed: true,
                    },
                ),
            ) && final(self)@ == (EnhancementModel {
                reset_confirmation: false,
                last_request_id: (old(self)@.last_request_id + 1) as u64,
                current_operation_request_id: (old(self)@.last_request_id + 1) as u64,
                operation_phase: EnhancementOperationPhase::Resetting,
                error: None,
                submitted: Some(old(self)@.draft),
                ..old(self)@
            }),
    {
        if !self.reset_confirmation || self.mutation_running() {
            return None;
        }
        self.reset_confirmation = false;
        let expected_revision = match self.revision {
            Some(revision) => revision,
            None => {
                return None;
            },
        };
        let request_id = self.issue_request_id();
        self.current_operation_request_id = request_id;
        self.operation_phase = EnhancementOperationPhase::Resetting;
        self.error = None;
        self.submitted = Some(self.draft);
        Some((request_id, ResetEnhancements { expected_revision, confirmed: true }))
    }

    /// Takes the answer to the running reset.
    pub fn apply_reset_response(
        &mut self,
        request_id: u64,
        result: Result<EnhancementWorkspace, EnhancementFailure>,
    ) -> (applied: bool)
        ensures
            applied == mutation_answers(old(self)@, request_id, EnhancementOperationPhase::Resetting),
            final(self)@ == mutation_response(
                old(self)@,
                request_id,
                EnhancementOperationPhase::Resetting,
                result,
            ),
    {
        self.apply_mutation_response(request_id, EnhancementOperationPhase::Resetting, result)
    }

    /// Shows the settings that a failed save read again, dropping the draft.
    pub fn reload_conflict(&mut self) -> (reloaded: bool)
        ensures
            reloaded == old(self)@.conflict_workspace is Some,
            !reloaded ==> final(self)@ == old(self)@,
            reloaded ==> final(self)@ == (EnhancementModel {
                conflict_workspace: None,
                initialized: true,
                load_phase: EnhancementLoadPhase::Ready,
                operation_phase: EnhancementOperationPhase::Ready,
                load_error: None,
                error: None,
                ..enhancements_installed(old(self)@, old(self)@.conflict_workspace.unwrap(), false)
            }),
    {
        let workspace = match self.conflict_workspace.take() {
            Some(workspace) => workspace,
            None => {
                return false;
            },
        };
        self.install_workspace(&workspace, false);
        self.initialized = true;
        self.load_phase = EnhancementLoadPhase::Ready;
        self.operation_phase = EnhancementOperationPhase::Ready;
        self.load_error = None;
        self.error = None;
        true
    }

    /// Returns the draft to the stored settings.
    pub fn discard_changes(&mut self)
        ensures
            final(self)@ == (EnhancementModel {
                draft: old(self)@.saved,
                error: None,
                conflict_workspace: None,
                ..old(self)@
            }),
    {
        self.draft = self.saved;
        self.error = None;
        self.conflict_workspace = None;
    }

    /// Fails the load and a running save or reset once the worker stopped;
    /// the revision is forgotten with a failed mutation.
    pub fn fail_running_operations(&mut self)
        ensures
            final(self)@ == ({
                let m = old(self)@;
                let loading = m.load_phase == EnhancementLoadPhase::Loading || m.load_phase
                    == EnhancementLoadPhase::Refreshing;
                let m1 = if loading {
                    EnhancementModel {
                        load_phase: EnhancementLoadPhase::Error,
                        load_error: Some(EnhancementFailureKind::WorkerStopped),
                        ..m
                    }
                } else {
                    m
                };
                let m2 = if mutation_running(m) {
                    EnhancementModel {
                        operation_phase: EnhancementOperationPhase::Error,
                        error: Some(EnhancementFailureKind::WorkerStopped),
                        revision: None,
                        submitted: None,
                        ..m1
                    }
                } else {
                    m1
                };
                EnhancementModel { reset_confirmation: false, ..m2 }
            }),
    {
        if self.load_phase == EnhancementLoadPhase::Loading || self.load_phase
            == EnhancementLoadPhase::Refreshing {
            self.load_phase = EnhancementLoadPhase::Error;
            self.load_error = Some(EnhancementFailureKind::WorkerStopped);
        }
        if self.mutation_running() {
            self.operation_phase = EnhancementOperationPhase::Error;
            self.error = Some(EnhancementFailureKind::WorkerStopped);
            self.revision = None;
            self.submitted = None;
        }
        self.reset_confirmation = false;
    }

    fn apply_mutation_response(
        &mut self,
        request_id: u64,
        expected_phase: EnhancementOperationPhase,
        result: Result<EnhancementWorkspace, EnhancementFailure>,
    ) -> (applied: bool)
        ensures
            applied == mutation_answers(old(self)@, request_id, expected_phase),
            final(self)@ == mutation_response(old(self)@, request_id, expected_phase, result),
    {
        if request_id != self.current_operation_request_id || self.operation_phase
            != expected_phase {
            return false;
        }
        match result {
            Ok(workspace) => {
                let preserve_draft = match self.submitted {
                    Some(value) => self.draft != value,
                    None => false,
                };
                self.install_workspace(&workspace, preserve_draft);
                self.operation_phase = EnhancementOperationPhase::Ready;
                self.error = None;
                self.conflict_workspace = None;
            },
            Err(failure) => {
                self.operation_phase = EnhancementOperationPhase::Error;
                self.error = Some(failure.kind);
                self.conflict_workspace = failure.refreshed_workspace;
                self.revision = None;
            },
        }
        self.submitted = None;
        true
    }

    fn install_loaded(&mut self, workspace: &EnhancementWorkspace)
        ensures
            final(self)@ == (EnhancementModel {
                initialized: true,
                load_phase: EnhancementLoadPhase::Ready,
                load_error: None,
                ..enhancements_installed(old(self)@, *workspace, enhancements_dirty(old(self)@))
            }),
    {
        let preserve_draft = self.is_dirty();
        self.install_workspace(workspace, preserve_draft);
        self.initialized = true;
        self.load_phase = EnhancementLoadPhase::Ready;
        self.load_error = None;
    }

    fn install_workspace(&mut self, workspace: &EnhancementWorkspace, preserve_draft: bool)
        ensures
            final(self)@ == enhancements_installed(old(self)@, *workspace, preserve_draft),
    {
        let draft = self.draft;
        self.revision = Some(workspace.revision);
        self.saved = workspace.settings;
        self.draft = if preserve_draft {
            draft
        } else {
            workspace.settings
        };
    }

    fn mutation_running(&self) -> (running: bool)
        ensures
            running == mutation_running(self@),
    {
        self.operation_phase == EnhancementOperationPhase::Saving || self.operation_phase
            == EnhancementOperationPhase::Resetting
    }

    fn issue_request_id(&mut self) -> (request_id: u64)
        requires
            old(self)@.last_request_id < u64::MAX,
        ensures
            request_id == old(self)@.last_request_id + 1,
            final(self)@ == (EnhancementModel { last_request_id: request_id, ..old(self)@ }),
    {
        self.next_request_id = self.next_request_id + 1;
        self.next_request_id
    }
}

/// A stored save or reset keeps a draft edited while it ran; without such an
/// edit the draft shows the stored settings and nothing is left unsaved.
pub proof fn law_stored_mutation_keeps_later_edits(
    m: EnhancementModel,
    phase: EnhancementOperationPhase,
    ws: EnhancementWorkspace,
    submitted: EnhancementSettings,
)
    requires
        m.operation_phase == phase,
        m.submitted == Some(submitted),
    ensures
        ({
            let after = mutation_response(m, m.current_operation_request_id, phase, Ok(ws));
            &&& submitted != m.draft ==> after.draft == m.draft
            &&& submitted == m.draft ==> after.draft == ws.settings && !enhancements_dirty(after)
            &&& after.saved == ws.settings
            &&& after.operation_phase == EnhancementOperationPhase::Ready
        }),
{
}

/// After a failed save or reset nothing can be saved until the settings are
/// read again: the revision is gone.
pub proof fn law_failed_mutation_blocks_saving(
    m: EnhancementModel,
    phase: EnhancementOperationPhase,
    failure: EnhancementFailure,
)
    requires
        m.operation_phase == phase,
    ensures
        mutation_response(m, m.current_operation_request_id, phase, Err(failure)).revision is None,
        mutation_response(m, m.current_operation_request_id, phase, Err(failure)).error == Some(
            failure.kind,
        ),
{
}

/// What the user asked for on the enhancements page.
#[derive(Debug, Clone, Copy, PartialEq, Eq, Structural)]
pub enum EnhancementAction {
    Refresh,
    Edit(EnhancementSettings),
    Save,
    RequestReset,
    ConfirmReset,
    CancelReset,
    ReloadConflict,
    DiscardChanges,
}

/// The message the enhancements page shows above its switches.
#[derive(Debug, Clone, Copy, PartialEq, Eq, Structural)]
pub enum EnhancementFeedback {
    /// A save hit settings changed on disk; offers to reload them.
    Conflict,
    Failure(EnhancementFailureKind),
    Saved,
    Unsaved,
}

/// The message for a page: a conflict first, then the operation's failure,
/// then the load's, then a finished save, then unsaved edits.
pub open spec fn feedback_of(m: EnhancementModel) -> Option<EnhancementFeedback> {
    if m.error == Some(EnhancementFailureKind::SettingsConflict) {
        Some(EnhancementFeedback::Conflict)
    } else if m.error is Some {
        Some(EnhancementFeedback::Failure(m.error.unwrap()))
    } else if m.load_error is Some {
        Some(EnhancementFeedback::Failure(m.load_error.unwrap()))
    } else if m.operation_phase == EnhancementOperationPhase::Ready {
        Some(EnhancementFeedback::Saved)
    } else if enhancements_dirty(m) {
        Some(EnhancementFeedback::Unsaved)
    } else {
        None
    }
}

impl EnhancementViewState {
    /// The message the page shows above its switches.
    pub fn feedback(&self) -> (message: Option<EnhancementFeedback>)
        ensures
            message == feedback_of(self@),
    {
        if self.error == Some(EnhancementFailureKind::SettingsConflict) {
            Some(EnhancementFeedback::Conflict)
        } else if let Some(error) = self.error {
            Some(EnhancementFeedback::Failure(error))
        } else if let Some(error) = self.load_error {
            Some(EnhancementFeedback::Failure(error))
        } else if self.operation_phase == EnhancementOperationPhase::Ready {
            Some(EnhancementFeedback::Saved)
        } else if self.is_dirty() {
            Some(EnhancementFeedback::Unsaved)
        } else {
            None
        }
    }
}


/// While a save or a reset runs, the page is locked: the switches are
/// disabled and no save, reset request or reset confirmation starts, so no
/// answer of the running operation is overtaken.
pub proof fn law_running_mutation_locks_the_page(m: EnhancementModel)
    requires
        m.operation_phase == EnhancementOperationPhase::Saving || m.operation_phase
            == EnhancementOperationPhase::Resetting,
    ensures
        mutation_running(m),
        !(m.initialized && m.draft.enabled && !mutation_running(m)),
        !(enhancements_dirty(m) && !mutation_running(m)),
        !(m.reset_confirmation && !mutation_running(m)),
{
}

} // verus!
