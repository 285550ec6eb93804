use vstd::prelude::*;

use crate::format::{chars_of, string_of, trim_chars, trimmed};
use crate::operation::{next_id, OperationPhase};
use crate::string_set::{
    clone_texts,
    contains_text_in, sorted_views, insert_text, remove_text, retain_texts, view_set,
};

verus! {

/// Why a relay-environment operation failed: the service's own error kind,
/// or a stopped worker.
#[derive(Debug, Clone, Copy, PartialEq, Eq)]
pub enum EnvironmentFailureKind<E> {
    Service(E),
    WorkerStopped,
}

/// An environment variable that conflicts with the relay, with what the
/// service reports about it.
#[derive(Debug)]
pub struct EnvironmentConflict<C> {
    pub name: String,
    pub detail: C,
}

/// What the relay-environment inspection found: its report, the conflicting
/// variables and the revision a cleanup must expect.
#[derive(Debug)]
pub struct RelayEnvironmentWorkspace<R, C> {
    pub report: R,
    pub conflicts: Vec<EnvironmentConflict<C>>,
    pub revision: String,
}

/// The result of a cleanup: the environment afterwards, and the details of
/// what was removed.
#[derive(Debug)]
pub struct EnvironmentRemovalOutcome<R, C, X> {
    pub workspace: RelayEnvironmentWorkspace<R, C>,
    pub details: X,
}

/// The cleanup request sent to the relay-environment service.
#[derive(Debug)]
pub struct RemoveEnvironmentConflicts {
    pub expected_revision: String,
    pub names: Vec<String>,
}

/// The names of the conflicts of a workspace.
pub open spec fn conflict_name_set<R, C>(workspace: RelayEnvironmentWorkspace<R, C>) -> Set<Seq<char>> {
    Set::new(|x: Seq<char>| exists|i: int| 0 <= i < workspace.conflicts@.len() && #[trigger] workspace.conflicts@[i].name@ == x)
}

/// The variable names the cleanup may remove start with `OPENAI_`.
pub open spec fn is_openai_name(name: Seq<char>) -> bool {
    name.len() >= 7 && name.subrange(0, 7) == seq!['O', 'P', 'E', 'N', 'A', 'I', '_']
}

/// How an answer to an inspection changes the page: an answer to another
/// request changes nothing; a workspace replaces the old one and the
/// selection keeps only names that still conflict; a failure is shown.
pub open spec fn inspection_answered<E, R, C, X>(
    before: EnvironmentViewState<E, R, C, X>,
    request_id: u64,
    result: Result<RelayEnvironmentWorkspace<R, C>, EnvironmentFailureKind<E>>,
    after: EnvironmentViewState<E, R, C, X>,
) -> bool {
    if request_id != before.current_inspection_request_id {
        after == before
    } else {
        match result {
            Ok(workspace) => after.selection() == before.selection().intersect(conflict_name_set(workspace))
                && after == (EnvironmentViewState {
                    selected_names: after.selected_names,
                    workspace: Some(workspace),
                    inspection_phase: OperationPhase::Ready,
                    inspection_error: None,
                    ..before
                }),
            Err(error) => after == (EnvironmentViewState {
                inspection_phase: OperationPhase::Error,
                inspection_error: Some(error),
                ..before
            }),
        }
    }
}

/// How an answer to a cleanup changes the page: an answer to another
/// request changes nothing; the environment after the cleanup replaces the
/// workspace, the selection keeps only names that still conflict and the
/// outcome is kept; a failure is shown.
pub open spec fn cleanup_answered<E, R, C, X>(
    before: EnvironmentViewState<E, R, C, X>,
    request_id: u64,
    result: Result<EnvironmentRemovalOutcome<R, C, X>, EnvironmentFailureKind<E>>,
    after: EnvironmentViewState<E, R, C, X>,
) -> bool {
    if request_id != before.current_cleanup_request_id {
        after == before
    } else {
        match result {
            Ok(outcome) => after.selection() == before.selection().intersect(conflict_name_set(outcome.workspace))
                && after == (EnvironmentViewState {
                    selected_names: after.selected_names,
                    workspace: Some(outcome.workspace),
                    cleanup_phase: OperationPhase::Ready,
                    cleanup_error: None,
                    cleanup_outcome: Some(outcome.details),
                    ..before
                }),
            Err(error) => after == (EnvironmentViewState {
                cleanup_phase: OperationPhase::Error,
                cleanup_error: Some(error),
                ..before
            }),
        }
    }
}

/// An answer of the relay-environment worker, its service error already
/// reduced to a failure kind.
pub enum EnvironmentResponse<E, R, C, X> {
    Inspection {
        request_id: u64,
        result: Result<RelayEnvironmentWorkspace<R, C>, EnvironmentFailureKind<E>>,
    },
    Cleanup { request_id: u64, result: Result<EnvironmentRemovalOutcome<R, C, X>, EnvironmentFailureKind<E>> },
}

/// The state of the relay-environment page: the inspection, the selected
/// conflicts, and the cleanup with its confirmation.
pub struct EnvironmentViewState<E, R, C, X> {
    pub inspection_phase: OperationPhase,
    pub current_inspection_request_id: u64,
    pub inspection_error: Option<EnvironmentFailureKind<E>>,
    pub workspace: Option<RelayEnvironmentWorkspace<R, C>>,
    pub selected_names: Vec<String>,
    pub cleanup_confirmation: bool,
    pub cleanup_phase: OperationPhase,
    pub current_cleanup_request_id: u64,
    pub cleanup_error: Option<EnvironmentFailureKind<E>>,
    pub cleanup_outcome: Option<X>,
}

fn conflict_names<R, C>(workspace: &RelayEnvironmentWorkspace<R, C>) -> (names: Vec<String>)
    ensures
        view_set(names@) == conflict_name_set(*workspace),
{
    let mut names: Vec<String> = Vec::new();
    let mut i: usize = 0;
    while i < workspace.conflicts.len()
        invariant
            i <= workspace.conflicts@.len(),
            names@.len() == i,
            forall|j: int| 0 <= j < i ==> (#[trigger] names@[j])@ == workspace.conflicts@[j].name@,
        decreases workspace.conflicts@.len() - i,
    {
        names.push(workspace.conflicts[i].name.clone());
        i = i + 1;
    }
    proof {
        assert forall|x: Seq<char>| view_set(names@).contains(x) == conflict_name_set(*workspace).contains(x) by {
            if view_set(names@).contains(x) {
                let j = choose|j: int| 0 <= j < names@.len() && names@[j]@ == x;
                assert(workspace.conflicts@[j].name@ == x);
            }
            if conflict_name_set(*workspace).contains(x) {
                let j = choose|j: int| 0 <= j < workspace.conflicts@.len() && workspace.conflicts@[j].name@ == x;
                assert(names@[j]@ == x);
            }
        }
        assert(view_set(names@) =~= conflict_name_set(*workspace));
    }
    names
}

fn starts_with_openai(name: &Vec<char>) -> (starts: bool)
    ensures
        starts == is_openai_name(name@),
{
    if name.len() < 7 {
        return false;
    }
    let starts = name[0] == 'O' && name[1] == 'P' && name[2] == 'E' && name[3] == 'N' && name[4] == 'A'
        && name[5] == 'I' && name[6] == '_';
    proof {
        if starts {
            assert(name@.subrange(0, 7) =~= seq!['O', 'P', 'E', 'N', 'A', 'I', '_']);
        } else {
            if name@.subrange(0, 7) == seq!['O', 'P', 'E', 'N', 'A', 'I', '_'] {
                assert(name@.subrange(0, 7)[0] == name@[0]);
                assert(name@.subrange(0, 7)[6] == name@[6]);
                assert(name@.subrange(0, 7)[5] == name@[5]);
                assert(name@.subrange(0, 7)[4] == name@[4]);
                assert(name@.subrange(0, 7)[3] == name@[3]);
                assert(name@.subrange(0, 7)[2] == name@[2]);
                assert(name@.subrange(0, 7)[1] == name@[1]);
            }
        }
    }
    starts
}

impl<E, R, C, X> EnvironmentViewState<E, R, C, X> {
    /// The set of selected conflict names.
    pub open spec fn selection(&self) -> Set<Seq<char>> {
        view_set(self.selected_names@)
    }

    /// The selection is kept in the order of `str`, each name once.
    pub open spec fn well_formed(&self) -> bool {
        sorted_views(self.selected_names@)
    }

    pub fn new() -> (state: Self)
        ensures
            state.inspection_phase == OperationPhase::Idle,
            state.current_inspection_request_id == 0,
            state.inspection_error is None,
            state.workspace is None,
            state.selected_names@.len() == 0,
            !state.cleanup_confirmation,
            state.cleanup_phase == OperationPhase::Idle,
            state.current_cleanup_request_id == 0,
            state.cleanup_error is None,
            state.cleanup_outcome is None,
            state.well_formed(),
    {
        EnvironmentViewState {
            inspection_phase: OperationPhase::Idle,
            current_inspection_request_id: 0,
            inspection_error: None,
            workspace: None,
            selected_names: Vec::new(),
            cleanup_confirmation: false,
            cleanup_phase: OperationPhase::Idle,
            current_cleanup_request_id: 0,
            cleanup_error: None,
            cleanup_outcome: None,
        }
    }

    /// Starts an inspection and returns its request id.
    pub fn begin_inspection(&mut self) -> (request_id: u64)
        requires
            old(self).current_inspection_request_id < u64::MAX,
        ensures
            request_id == old(self).current_inspection_request_id + 1,
            *final(self) == (EnvironmentViewState {
                current_inspection_request_id: request_id,
                inspection_phase: OperationPhase::Running,
                inspection_error: None,
                ..*old(self)
            }),
    {
        self.current_inspection_request_id = next_id(self.current_inspection_request_id);
        self.inspection_phase = OperationPhase::Running;
        self.inspection_error = None;
        self.current_inspection_request_id
    }

    /// Applies the answer to an inspection; only the current request counts.
    /// The selection keeps only names that still conflict.
    pub fn apply_inspection_response(
        &mut self,
        request_id: u64,
        result: Result<RelayEnvironmentWorkspace<R, C>, EnvironmentFailureKind<E>>,
    ) -> (applied: bool)
        requires
            old(self).well_formed(),
        ensures
            final(self).well_formed(),
            applied == (request_id == old(self).current_inspection_request_id),
            inspection_answered(*old(self), request_id, result, *final(self)),
    {
        if request_id != self.current_inspection_request_id {
            return false;
        }
        match result {
            Ok(workspace) => {
                let available = conflict_names(&workspace);
                retain_texts(&mut self.selected_names, &available);
                self.workspace = Some(workspace);
                self.inspection_phase = OperationPhase::Ready;
                self.inspection_error = None;
            },
            Err(error) => {
                self.inspection_phase = OperationPhase::Error;
                self.inspection_error = Some(error);
            },
        }
        true
    }

    /// The selected conflict names.
    pub fn selected_names(&self) -> (names: &Vec<String>)
        ensures
            names == &self.selected_names,
    {
        &self.selected_names
    }

    /// Whether a conflict name is selected.
    pub fn is_selected(&self, name: &str) -> (selected: bool)
        ensures
            selected == self.selection().contains(name@),
    {
        contains_text_in(&self.selected_names, name)
    }

    /// Selects or deselects a conflict by its trimmed name; reports whether
    /// the selection changed. Only `OPENAI_` names that the inspection
    /// reported as conflicts can be selected.
    pub fn toggle_selection(&mut self, name: &str, selected: bool) -> (changed: bool)
        requires
            old(self).well_formed(),
        ensures
            final(self).well_formed(),
            ({
                let key = trimmed(name@);
                let allowed = is_openai_name(key) && old(self).workspace is Some
                    && conflict_name_set(old(self).workspace->0).contains(key);
                &&& !allowed ==> !changed && *final(self) == *old(self)
                &&& allowed && selected ==> final(self).selection() == old(self).selection().insert(key)
                    && changed == !old(self).selection().contains(key)
                &&& allowed && !selected ==> final(self).selection() == old(self).selection().remove(key)
                    && changed == old(self).selection().contains(key)
                &&& *final(self) == (EnvironmentViewState { selected_names: final(self).selected_names, ..*old(self) })
            }),
    {
        let chars = chars_of(name);
        let key_chars = trim_chars(&chars);
        if !starts_with_openai(&key_chars) {
            return false;
        }
        let key = string_of(&key_chars);
        let known = match &self.workspace {
            Some(workspace) => {
                let names = conflict_names(workspace);
                contains_text_in(&names, key.as_str())
            },
            None => false,
        };
        if !known {
            return false;
        }
        if selected {
            insert_text(&mut self.selected_names, key.as_str())
        } else {
            remove_text(&mut self.selected_names, key.as_str())
        }
    }

    /// Opens the cleanup confirmation; reports whether it opened. Nothing is
    /// selected, or a cleanup runs, keeps it closed.
    pub fn request_cleanup_confirmation(&mut self) -> (requested: bool)
        ensures
            (old(self).selected_names@.len() == 0 || old(self).cleanup_phase == OperationPhase::Running)
                ==> !requested && *final(self) == *old(self),
            !(old(self).selected_names@.len() == 0 || old(self).cleanup_phase == OperationPhase::Running)
                ==> requested && *final(self) == (EnvironmentViewState { cleanup_confirmation: true, ..*old(self) }),
    {
        if self.selected_names.len() == 0 || self.cleanup_phase == OperationPhase::Running {
            return false;
        }
        self.cleanup_confirmation = true;
        true
    }

    /// Closes the cleanup confirmation unless a cleanup runs.
    pub fn cancel_cleanup_confirmation(&mut self)
        ensures
            old(self).cleanup_phase == OperationPhase::Running ==> *final(self) == *old(self),
            old(self).cleanup_phase != OperationPhase::Running ==> *final(self) == (EnvironmentViewState {
                cleanup_confirmation: false,
                ..*old(self)
            }),
    {
        if self.cleanup_phase != OperationPhase::Running {
            self.cleanup_confirmation = false;
        }
    }

    /// Starts the confirmed cleanup of the selected names and returns its
    /// request id and request. Nothing starts without a confirmation, while
    /// a cleanup runs, without a workspace or without a selection.
    pub fn begin_cleanup(&mut self) -> (started: Option<(u64, RemoveEnvironmentConflicts)>)
        requires
            !(!old(self).cleanup_confirmation || old(self).cleanup_phase == OperationPhase::Running
                || old(self).workspace is None || old(self).selected_names@.len() == 0)
                ==> old(self).current_cleanup_request_id < u64::MAX,
        ensures
            (!old(self).cleanup_confirmation || old(self).cleanup_phase == OperationPhase::Running
                || old(self).workspace is None || old(self).selected_names@.len() == 0) ==> started is None
                && *final(self) == *old(self),
            !(!old(self).cleanup_confirmation || old(self).cleanup_phase == OperationPhase::Running
                || old(self).workspace is None || old(self).selected_names@.len() == 0) ==> (started matches Some(
                (request_id, request),
            ) && request_id == old(self).current_cleanup_request_id + 1
                && request.expected_revision == old(self).workspace->0.revision
                && request.names@ == old(self).selected_names@ && *final(self) == (EnvironmentViewState {
                current_cleanup_request_id: (old(self).current_cleanup_request_id + 1) as u64,
                cleanup_phase: OperationPhase::Running,
                cleanup_error: None,
                cleanup_confirmation: false,
                cleanup_outcome: None,
                ..*old(self)
            })),
    {
        if !self.cleanup_confirmation || self.cleanup_phase == OperationPhase::Running {
            return None;
        }
        let revision = match &self.workspace {
            Some(workspace) => workspace.revision.clone(),
            None => {
                return None;
            },
        };
        if self.selected_names.len() == 0 {
            return None;
        }
        self.current_cleanup_request_id = next_id(self.current_cleanup_request_id);
        self.cleanup_phase = OperationPhase::Running;
        self.cleanup_error = None;
        self.cleanup_confirmation = false;
        self.cleanup_outcome = None;
        let names = clone_texts(&self.selected_names);
        Some(
            (
                self.current_cleanup_request_id,
                RemoveEnvironmentConflicts { expected_revision: revision, names },
            ),
        )
    }

    /// Applies the answer to a cleanup; only the current request counts. The
    /// environment after the cleanup replaces the workspace and the selection
    /// keeps only names that still conflict.
    pub fn apply_cleanup_response(
        &mut self,
        request_id: u64,
        result: Result<EnvironmentRemovalOutcome<R, C, X>, EnvironmentFailureKind<E>>,
    ) -> (applied: bool)
        requires
            old(self).well_formed(),
        ensures
            final(self).well_formed(),
            applied == (request_id == old(self).current_cleanup_request_id),
            cleanup_answered(*old(self), request_id, result, *final(self)),
    {
        if request_id != self.current_cleanup_request_id {
            return false;
        }
        match result {
            Ok(outcome) => {
                let remaining = conflict_names(&outcome.workspace);
                retain_texts(&mut self.selected_names, &remaining);
                self.workspace = Some(outcome.workspace);
                self.cleanup_phase = OperationPhase::Ready;
                self.cleanup_error = None;
                self.cleanup_outcome = Some(outcome.details);
            },
            Err(error) => {
                self.cleanup_phase = OperationPhase::Error;
                self.cleanup_error = Some(error);
            },
        }
        true
    }

    /// Applies one answer of the worker. Reports whether it brought fresh
    /// data: an answer to the current request that succeeded.
    pub fn apply_response(&mut self, response: EnvironmentResponse<E, R, C, X>) -> (refreshed: bool)
        requires
            old(self).well_formed(),
        ensures
            final(self).well_formed(),
            match response {
                EnvironmentResponse::Inspection { request_id, result } => inspection_answered(
                    *old(self),
                    request_id,
                    result,
                    *final(self),
                ) && refreshed == (request_id == old(self).current_inspection_request_id && result is Ok),
                EnvironmentResponse::Cleanup { request_id, result } => cleanup_answered(
                    *old(self),
                    request_id,
                    result,
                    *final(self),
                ) && refreshed == (request_id == old(self).current_cleanup_request_id && result is Ok),
            },
    {
        match response {
            EnvironmentResponse::Inspection { request_id, result } => {
                let succeeded = result.is_ok();
                let applied = self.apply_inspection_response(request_id, result);
                applied && succeeded
            },
            EnvironmentResponse::Cleanup { request_id, result } => {
                let succeeded = result.is_ok();
                let applied = self.apply_cleanup_response(request_id, result);
                applied && succeeded
            },
        }
    }

    /// Records that the worker stopped: a running inspection and a running
    /// cleanup fail with a stopped worker; nothing else changes.
    pub fn mark_worker_stopped(&mut self)
        requires
            old(self).well_formed(),
        ensures
            final(self).well_formed(),
            *final(self) == (EnvironmentViewState {
                inspection_phase: if old(self).inspection_phase == OperationPhase::Running {
                    OperationPhase::Error
                } else {
                    old(self).inspection_phase
                },
                inspection_error: if old(self).inspection_phase == OperationPhase::Running {
                    Some(EnvironmentFailureKind::WorkerStopped)
                } else {
                    old(self).inspection_error
                },
                cleanup_phase: if old(self).cleanup_phase == OperationPhase::Running {
                    OperationPhase::Error
                } else {
                    old(self).cleanup_phase
                },
                cleanup_error: if old(self).cleanup_phase == OperationPhase::Running {
                    Some(EnvironmentFailureKind::WorkerStopped)
                } else {
                    old(self).cleanup_error
                },
                ..*old(self)
            }),
    {
        if self.inspection_phase == OperationPhase::Running {
            let request_id = self.current_inspection_request_id;
            self.apply_inspection_response(request_id, Err(EnvironmentFailureKind::WorkerStopped));
        }
        if self.cleanup_phase == OperationPhase::Running {
            let request_id = self.current_cleanup_request_id;
            self.apply_cleanup_response(request_id, Err(EnvironmentFailureKind::WorkerStopped));
        }
    }
}

} // verus!
