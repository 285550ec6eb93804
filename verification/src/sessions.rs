use vstd::prelude::*;

use crate::format::{
    chars_of, contains_text, find_text, lowercase, string_of, to_lowercase, trim_chars, trimmed,
};
use crate::operation::{next_id, OperationPhase};
use crate::string_set::{
    contains_text_in, sorted_views, insert_text, remove_text, retain_texts, view_set,
};

verus! {

/// Sessions shown on one page of the session list.
pub const SESSION_PAGE_SIZE: usize = 50;

/// Sessions named in a delete confirmation's preview.
pub const DELETE_PREVIEW_LIMIT: usize = 6;

/// Which sessions the list shows.
#[derive(Debug, Clone, Copy, PartialEq, Eq, Structural)]
pub enum SessionFilter {
    All,
    Active,
    Archived,
}

impl Default for SessionFilter {
    fn default() -> (filter: Self)
        ensures
            filter == SessionFilter::All,
    {
        SessionFilter::All
    }
}

/// What the user asked for on the sessions page.
#[derive(Debug, Clone, PartialEq, Eq)]
pub enum SessionAction {
    Refresh,
    RetryWorkspace,
    SetQuery(String),
    SetFilter(SessionFilter),
    SetSelected { id: String, selected: bool },
    SelectAllFiltered,
    ClearSelection,
    SetPage(usize),
    RequestDelete,
    CancelDelete,
    ConfirmDelete,
    RetryProviderWorkspace,
    SetProviderTarget(String),
    RunProviderRepair,
    CancelProviderRepair,
    ConfirmProviderRepair,
    SetAutoRepair(bool),
}

/// Why a session operation failed: the session service's own error kind, or
/// a stopped worker.
#[derive(Debug, Clone, Copy, PartialEq, Eq)]
pub enum SessionFailureKind<E> {
    Service(E),
    WorkerStopped,
}

/// Why a provider sync operation failed: the sync service's own error kind,
/// or a stopped worker.
pub type ProviderSyncFailureKind<E> = SessionFailureKind<E>;

/// One stored Codex session as the list shows it.
#[derive(Debug)]
pub struct SessionSummary {
    pub id: String,
    pub title: String,
    pub cwd: String,
    pub model_provider: String,
    pub source_db_paths: Vec<String>,
    pub archived: bool,
    pub revision: String,
}

/// The sessions the session service reported.
#[derive(Debug)]
pub struct SessionWorkspace {
    pub sessions: Vec<SessionSummary>,
}

/// The sessions a delete is about to remove, and the titles the dialog shows.
#[derive(Debug, Clone, PartialEq, Eq)]
pub struct DeleteConfirmation {
    pub session_ids: Vec<String>,
    pub previews: Vec<String>,
}

impl DeleteConfirmation {
    /// How many sessions the delete removes.
    pub fn count(&self) -> (count: usize)
        ensures
            count == self.session_ids@.len(),
    {
        self.session_ids.len()
    }

    /// How many sessions the delete removes beyond those previewed.
    pub fn remaining_preview_count(&self) -> (count: usize)
        ensures
            count == (if self.session_ids@.len() >= self.previews@.len() {
                self.session_ids@.len() - self.previews@.len()
            } else {
                0
            }),
    {
        self.session_ids.len().saturating_sub(self.previews.len())
    }
}

/// The sessions of a workspace, none when there is no workspace.
pub open spec fn workspace_sessions(workspace: Option<SessionWorkspace>) -> Seq<SessionSummary> {
    match workspace {
        Some(w) => w.sessions@,
        None => Seq::empty(),
    }
}

/// The filter lets a session with this archive flag through.
pub open spec fn filter_admits(filter: SessionFilter, archived: bool) -> bool {
    match filter {
        SessionFilter::All => true,
        SessionFilter::Active => !archived,
        SessionFilter::Archived => archived,
    }
}

/// The search key of a query: trimmed and in lower case.
pub open spec fn query_key(query: Seq<char>) -> Seq<char> {
    lowercase(trimmed(query))
}

/// A field matches a search key when its lower-case form contains it.
pub open spec fn field_matches_key(field: Seq<char>, key: Seq<char>) -> bool {
    contains_text(lowercase(field), key)
}

/// A session is listed under a filter and search key: its archive flag
/// passes the filter, and the key is empty or found in its id, title,
/// working directory, model provider or one of its source database paths.
pub open spec fn session_listed(session: SessionSummary, filter: SessionFilter, key: Seq<char>) -> bool {
    &&& filter_admits(filter, session.archived)
    &&& (key.len() == 0 || field_matches_key(session.id@, key) || field_matches_key(
        session.title@,
        key,
    ) || field_matches_key(session.cwd@, key) || field_matches_key(session.model_provider@, key)
        || exists|k: int|
        0 <= k < session.source_db_paths@.len() && field_matches_key(
            #[trigger] session.source_db_paths@[k]@,
            key,
        ))
}

/// The sessions listed, in workspace order.
pub open spec fn listed_sessions(
    sessions: Seq<SessionSummary>,
    filter: SessionFilter,
    key: Seq<char>,
) -> Seq<SessionSummary> {
    sessions.filter(|s: SessionSummary| session_listed(s, filter, key))
}

/// The number of pages for a number of listed sessions; there is always one.
pub open spec fn page_count_for(listed: nat) -> nat {
    if listed == 0 {
        1
    } else {
        ((listed + 49) / 50) as nat
    }
}

/// A page number kept inside the pages of a list: the last page when it
/// lies beyond it.
pub open spec fn clamped_page(page: nat, listed: nat) -> nat {
    if page <= page_count_for(listed) - 1 {
        page
    } else {
        (page_count_for(listed) - 1) as nat
    }
}

/// The listed sessions on a page.
pub open spec fn page_of(listed: Seq<SessionSummary>, page: nat) -> Seq<SessionSummary> {
    let start = page * 50;
    let end = start + 50;
    if start >= listed.len() {
        Seq::empty()
    } else if end >= listed.len() {
        listed.subrange(start as int, listed.len() as int)
    } else {
        listed.subrange(start as int, end as int)
    }
}

/// The ids of the sessions in a workspace.
pub open spec fn session_id_set(sessions: Seq<SessionSummary>) -> Set<Seq<char>> {
    Set::new(|x: Seq<char>| exists|i: int| 0 <= i < sessions.len() && #[trigger] sessions[i].id@ == x)
}

/// Whether a field matches a search key.
fn field_matches(field: &str, key: &Vec<char>) -> (matched: bool)
    ensures
        matched == field_matches_key(field@, key@),
{
    let lower = to_lowercase(field);
    let lower_chars = chars_of(lower.as_str());
    find_text(&lower_chars, key)
}

/// Whether a session is listed under a filter and a search key.
fn session_matches(session: &SessionSummary, filter: SessionFilter, key: &Vec<char>) -> (listed: bool)
    ensures
        listed == session_listed(*session, filter, key@),
{
    let admitted = match filter {
        SessionFilter::All => true,
        SessionFilter::Active => !session.archived,
        SessionFilter::Archived => session.archived,
    };
    if !admitted {
        return false;
    }
    if key.len() == 0 {
        return true;
    }
    if field_matches(session.id.as_str(), key) || field_matches(session.title.as_str(), key)
        || field_matches(session.cwd.as_str(), key) || field_matches(
        session.model_provider.as_str(),
        key,
    ) {
        return true;
    }
    let paths = &session.source_db_paths;
    let mut k: usize = 0;
    while k < paths.len()
        invariant
            k <= paths@.len(),
            paths@ == session.source_db_paths@,
            filter_admits(filter, session.archived),
            key@.len() != 0,
            forall|j: int| 0 <= j < k ==> !field_matches_key(#[trigger] paths@[j]@, key@),
        decreases paths@.len() - k,
    {
        if field_matches(paths[k].as_str(), key) {
            proof {
                assert(field_matches_key(session.source_db_paths@[k as int]@, key@));
            }
            return true;
        }
        k = k + 1;
    }
    false
}

/// The state of the session page: the workspace and its load, the search,
/// filter, page and selection, the delete flow and the provider-sync flow.
/// Service error kinds (`SE` for sessions, `PE` for provider sync) and the
/// reports of finished deletes (`DR`) and syncs (`PR`) are carried through
/// without being looked at.
pub struct SessionViewState<SE, PE, DR, PR> {
    pub workspace_phase: OperationPhase,
    pub current_workspace_request_id: u64,
    pub workspace_error: Option<SessionFailureKind<SE>>,
    pub workspace: Option<SessionWorkspace>,
    pub query: String,
    pub filter: SessionFilter,
    pub selected_ids: Vec<String>,
    pub page: usize,
    pub delete_phase: OperationPhase,
    pub current_delete_request_id: u64,
    pub delete_error: Option<SessionFailureKind<SE>>,
    pub delete_confirmation: Option<DeleteConfirmation>,
    pub delete_outcome: Option<DR>,
    pub provider_workspace_phase: OperationPhase,
    pub current_provider_workspace_request_id: u64,
    pub provider_workspace_error: Option<ProviderSyncFailureKind<PE>>,
    pub provider_workspace: Option<ProviderSyncWorkspace>,
    pub selected_provider_target: String,
    pub provider_run_phase: OperationPhase,
    pub current_provider_run_request_id: u64,
    pub provider_run_error: Option<ProviderSyncFailureKind<PE>>,
    pub provider_outcome: Option<PR>,
    pub provider_run_confirmation: Option<String>,
    pub auto_repair_phase: OperationPhase,
    pub current_auto_repair_request_id: u64,
    pub auto_repair_error: Option<ProviderSyncFailureKind<PE>>,
    pub worker_stopped: bool,
}

/// The provider-sync workspace: the ids of the providers sessions can be
/// moved to, the target the service suggests, and its revision.
#[derive(Debug)]
pub struct ProviderSyncWorkspace {
    pub target_ids: Vec<String>,
    pub selected_target: String,
    pub revision: String,
}

impl<SE, PE, DR, PR> SessionViewState<SE, PE, DR, PR> {
    /// The sessions of the current workspace.
    pub open spec fn sessions(&self) -> Seq<SessionSummary> {
        workspace_sessions(self.workspace)
    }

    /// The sessions the list shows under the current filter and search.
    pub open spec fn listed(&self) -> Seq<SessionSummary> {
        listed_sessions(self.sessions(), self.filter, query_key(self.query@))
    }

    /// The set of selected session ids.
    pub open spec fn selection(&self) -> Set<Seq<char>> {
        view_set(self.selected_ids@)
    }

    /// The selection is kept in the order of `str`, each id once.
    pub open spec fn well_formed(&self) -> bool {
        sorted_views(self.selected_ids@)
    }

    pub fn new() -> (state: Self)
        ensures
            state.workspace_phase == OperationPhase::Idle,
            state.current_workspace_request_id == 0,
            state.workspace_error is None,
            state.workspace is None,
            state.query@ == Seq::<char>::empty(),
            state.filter == SessionFilter::All,
            state.selected_ids@.len() == 0,
            state.page == 0,
            state.delete_phase == OperationPhase::Idle,
            state.current_delete_request_id == 0,
            state.delete_error is None,
            state.delete_confirmation is None,
            state.delete_outcome is None,
            state.provider_workspace_phase == OperationPhase::Idle,
            state.current_provider_workspace_request_id == 0,
            state.provider_workspace_error is None,
            state.provider_workspace is None,
            state.selected_provider_target@ == Seq::<char>::empty(),
            state.provider_run_phase == OperationPhase::Idle,
            state.current_provider_run_request_id == 0,
            state.provider_run_error is None,
            state.provider_outcome is None,
            state.provider_run_confirmation is None,
            state.auto_repair_phase == OperationPhase::Idle,
            state.current_auto_repair_request_id == 0,
            state.auto_repair_error is None,
            !state.worker_stopped,
            state.well_formed(),
    {
        SessionViewState {
            workspace_phase: OperationPhase::Idle,
            current_workspace_request_id: 0,
            workspace_error: None,
            workspace: None,
            query: String::new(),
            filter: SessionFilter::All,
            selected_ids: Vec::new(),
            page: 0,
            delete_phase: OperationPhase::Idle,
            current_delete_request_id: 0,
            delete_error: None,
            delete_confirmation: None,
            delete_outcome: None,
            provider_workspace_phase: OperationPhase::Idle,
            current_provider_workspace_request_id: 0,
            provider_workspace_error: None,
            provider_workspace: None,
            selected_provider_target: String::new(),
            provider_run_phase: OperationPhase::Idle,
            current_provider_run_request_id: 0,
            provider_run_error: None,
            provider_outcome: None,
            provider_run_confirmation: None,
            auto_repair_phase: OperationPhase::Idle,
            current_auto_repair_request_id: 0,
            auto_repair_error: None,
            worker_stopped: false,
        }
    }

    /// The search key of the current query.
    fn search_key(&self) -> (key: Vec<char>)
        ensures
            key@ == query_key(self.query@),
    {
        let chars = chars_of(self.query.as_str());
        let trimmed_chars = trim_chars(&chars);
        let trimmed_text = string_of(&trimmed_chars);
        let lower = to_lowercase(trimmed_text.as_str());
        chars_of(lower.as_str())
    }

    /// The sessions the list shows, in workspace order.
    pub fn filtered_sessions(&self) -> (listed: Vec<&SessionSummary>)
        ensures
            listed@.map_values(|s: &SessionSummary| *s) == self.listed(),
    {
        let key = self.search_key();
        let mut listed: Vec<&SessionSummary> = Vec::new();
        match &self.workspace {
            None => {
                proof {
                    reveal(Seq::filter);
                    assert(listed@.map_values(|s: &SessionSummary| *s) =~= self.listed());
                }
                listed
            },
            Some(workspace) => {
                let sessions = &workspace.sessions;
                let ghost pred = |s: SessionSummary| session_listed(s, self.filter, key@);
                let mut i: usize = 0;
                while i < sessions.len()
                    invariant
                        i <= sessions@.len(),
                        sessions@ == self.sessions(),
                        key@ == query_key(self.query@),
                        pred == (|s: SessionSummary| session_listed(s, self.filter, key@)),
                        listed@.map_values(|s: &SessionSummary| *s) == sessions@.take(i as int).filter(pred),
                    decreases sessions@.len() - i,
                {
                    let ghost before = listed@;
                    if session_matches(&sessions[i], self.filter, &key) {
                        listed.push(&sessions[i]);
                    }
                    proof {
                        reveal(Seq::filter);
                        let prefix = sessions@.take(i + 1);
                        assert(prefix.drop_last() =~= sessions@.take(i as int));
                        assert(prefix.last() == sessions@[i as int]);
                        assert(listed@.map_values(|s: &SessionSummary| *s) =~= prefix.filter(pred));
                    }
                    i = i + 1;
                }
                proof {
                    assert(sessions@.take(sessions@.len() as int) =~= sessions@);
                }
                listed
            },
        }
    }
}

} // verus!

verus! {

fn count_archived(sessions: &Vec<SessionSummary>, archived: bool) -> (count: usize)
    ensures
        count == sessions@.filter(|s: SessionSummary| s.archived == archived).len(),
{
    let ghost pred = |s: SessionSummary| s.archived == archived;
    let mut count: usize = 0;
    let mut i: usize = 0;
    while i < sessions.len()
        invariant
            i <= sessions@.len(),
            pred == (|s: SessionSummary| s.archived == archived),
            count == sessions@.take(i as int).filter(pred).len(),
            count <= i,
        decreases sessions@.len() - i,
    {
        proof {
            reveal(Seq::filter);
            let prefix = sessions@.take(i + 1);
            assert(prefix.drop_last() =~= sessions@.take(i as int));
            assert(prefix.last() == sessions@[i as int]);
        }
        if sessions[i].archived == archived {
            count = count + 1;
        }
        i = i + 1;
    }
    proof {
        assert(sessions@.take(sessions@.len() as int) =~= sessions@);
    }
    count
}

impl<SE, PE, DR, PR> SessionViewState<SE, PE, DR, PR> {
    /// The number of pages of the session list; there is always one.
    pub fn page_count(&self) -> (count: usize)
        ensures
            count == page_count_for(self.listed().len()),
            count >= 1,
    {
        let listed = self.filtered_sessions();
        let n = listed.len();
        assert(n == self.listed().len());
        if n == 0 {
            1
        } else if n % 50 == 0 {
            n / 50
        } else {
            n / 50 + 1
        }
    }

    /// The sessions on the current page.
    pub fn page_sessions(&self) -> (page: Vec<&SessionSummary>)
        requires
            self.page * 50 <= usize::MAX,
        ensures
            page@.map_values(|s: &SessionSummary| *s) == page_of(self.listed(), self.page as nat),
    {
        let listed = self.filtered_sessions();
        let ghost all = self.listed();
        let start = self.page * 50;
        let mut page: Vec<&SessionSummary> = Vec::new();
        let n = listed.len();
        let end = if start >= n {
            start
        } else if n - start > 50 {
            start + 50
        } else {
            n
        };
        let mut i = start;
        assert(all.len() == n);
        while i < end
            invariant
                start <= i,
                i <= end,
                end <= n || start >= n,
                start >= n ==> end == start,
                n == listed@.len(),
                n == all.len(),
                start == self.page * 50,
                all == self.listed(),
                listed@.map_values(|s: &SessionSummary| *s) == all,
                page@.len() == i - start,
                forall|k: int| 0 <= k < page@.len() ==> *page@[k] == all[start + k],
            decreases end - i,
        {
            page.push(listed[i]);
            proof {
                assert(listed@.map_values(|s: &SessionSummary| *s)[i as int] == *listed@[i as int]);
            }
            i = i + 1;
        }
        proof {
            let mapped = page@.map_values(|s: &SessionSummary| *s);
            let expected = page_of(all, self.page as nat);
            if start >= n {
                assert(expected =~= Seq::<SessionSummary>::empty());
                assert(mapped =~= expected);
            } else {
                assert(i == end);
                assert(expected.len() == end - start);
                assert forall|k: int| 0 <= k < mapped.len() implies mapped[k] == expected[k] by {
                    assert(mapped[k] == *page@[k]);
                    assert(expected[k] == all[start + k]);
                }
                assert(mapped =~= expected);
            }
        }
        page
    }

    /// The number of sessions in the workspace that are not archived.
    pub fn active_count(&self) -> (count: usize)
        ensures
            count == self.sessions().filter(|s: SessionSummary| s.archived == false).len(),
    {
        match &self.workspace {
            Some(workspace) => count_archived(&workspace.sessions, false),
            None => {
                proof {
                    reveal(Seq::filter);
                }
                0
            },
        }
    }

    /// The number of archived sessions in the workspace.
    pub fn archived_count(&self) -> (count: usize)
        ensures
            count == self.sessions().filter(|s: SessionSummary| s.archived == true).len(),
    {
        match &self.workspace {
            Some(workspace) => count_archived(&workspace.sessions, true),
            None => {
                proof {
                    reveal(Seq::filter);
                }
                0
            },
        }
    }

    /// Replaces the search and returns to the first page.
    pub fn set_query(&mut self, query: String)
        ensures
            *final(self) == (SessionViewState { query: query, page: 0, ..*old(self) }),
    {
        self.query = query;
        self.page = 0;
    }

    /// Replaces the filter and returns to the first page.
    pub fn set_filter(&mut self, filter: SessionFilter)
        ensures
            *final(self) == (SessionViewState { filter: filter, page: 0, ..*old(self) }),
    {
        self.filter = filter;
        self.page = 0;
    }

    /// Moves to a page, clamped to the last one; reports whether the page changed.
    pub fn set_page(&mut self, page: usize) -> (changed: bool)
        ensures
            ({
                let last = (page_count_for(old(self).listed().len()) - 1) as nat;
                let clamped = if page <= last { page as nat } else { last };
                &&& *final(self) == (SessionViewState { page: clamped as usize, ..*old(self) })
                &&& changed == (old(self).page != clamped)
            }),
    {
        let last = self.page_count() - 1;
        let clamped = if page <= last { page } else { last };
        let changed = self.page != clamped;
        self.page = clamped;
        changed
    }
}

} // verus!

verus! {

/// The ids of a list of sessions.
fn ids_of(sessions: &Vec<SessionSummary>) -> (ids: Vec<String>)
    ensures
        view_set(ids@) == session_id_set(sessions@),
        ids@.len() == sessions@.len(),
        forall|i: int| 0 <= i < sessions@.len() ==> (#[trigger] ids@[i])@ == sessions@[i].id@,
{
    let mut ids: Vec<String> = Vec::new();
    let mut i: usize = 0;
    while i < sessions.len()
        invariant
            i <= sessions@.len(),
            ids@.len() == i,
            forall|j: int| 0 <= j < i ==> (#[trigger] ids@[j])@ == sessions@[j].id@,
        decreases sessions@.len() - i,
    {
        ids.push(sessions[i].id.clone());
        i = i + 1;
    }
    proof {
        assert forall|x: Seq<char>| view_set(ids@).contains(x) == session_id_set(sessions@).contains(x) by {
            if view_set(ids@).contains(x) {
                let j = choose|j: int| 0 <= j < ids@.len() && ids@[j]@ == x;
                assert(sessions@[j].id@ == x);
            }
            if session_id_set(sessions@).contains(x) {
                let j = choose|j: int| 0 <= j < sessions@.len() && sessions@[j].id@ == x;
                assert(ids@[j]@ == x);
            }
        }
        assert(view_set(ids@) =~= session_id_set(sessions@));
    }
    ids
}

/// Whether some session of a list has the id.
fn has_session_id(sessions: &Vec<SessionSummary>, id: &str) -> (found: bool)
    ensures
        found == session_id_set(sessions@).contains(id@),
{
    let mut i: usize = 0;
    while i < sessions.len()
        invariant
            i <= sessions@.len(),
            forall|j: int| 0 <= j < i ==> sessions@[j].id@ != id@,
        decreases sessions@.len() - i,
    {
        if crate::format::text_eq(sessions[i].id.as_str(), id) {
            assert(sessions@[i as int].id@ == id@);
            return true;
        }
        i = i + 1;
    }
    false
}

impl<SE, PE, DR, PR> SessionViewState<SE, PE, DR, PR> {
    /// Selects or deselects a session of the workspace; reports whether the
    /// selection changed. Nothing changes while a delete runs or for an id the
    /// workspace does not hold.
    pub fn set_selected(&mut self, id: &str, selected: bool) -> (changed: bool)
        requires
            old(self).well_formed(),
        ensures
            final(self).well_formed(),
            *final(self) == (SessionViewState { selected_ids: final(self).selected_ids, ..*old(self) }),
            (old(self).delete_phase == OperationPhase::Running || !session_id_set(old(self).sessions()).contains(id@))
                ==> !changed && final(self).selected_ids == old(self).selected_ids,
            (old(self).delete_phase != OperationPhase::Running && session_id_set(old(self).sessions()).contains(id@))
                ==> (if selected {
                    final(self).selection() == old(self).selection().insert(id@) && changed == !old(self).selection().contains(id@)
                } else {
                    final(self).selection() == old(self).selection().remove(id@) && changed == old(self).selection().contains(id@)
                }),
    {
        if self.delete_phase == OperationPhase::Running {
            return false;
        }
        let present = match &self.workspace {
            Some(workspace) => has_session_id(&workspace.sessions, id),
            None => false,
        };
        if !present {
            return false;
        }
        if selected {
            insert_text(&mut self.selected_ids, id)
        } else {
            remove_text(&mut self.selected_ids, id)
        }
    }

    /// Adds every listed session to the selection; reports whether the
    /// selection grew. Nothing changes while a delete runs.
    pub fn select_all_filtered(&mut self) -> (changed: bool)
        requires
            old(self).well_formed(),
        ensures
            final(self).well_formed(),
            *final(self) == (SessionViewState { selected_ids: final(self).selected_ids, ..*old(self) }),
            old(self).delete_phase == OperationPhase::Running ==> !changed && final(self).selected_ids == old(self).selected_ids,
            old(self).delete_phase != OperationPhase::Running ==> final(self).selection() == old(self).selection().union(
                session_id_set(old(self).listed()),
            ) && changed == !session_id_set(old(self).listed()).subset_of(old(self).selection()),
    {
        if self.delete_phase == OperationPhase::Running {
            return false;
        }
        let ghost listed_ids = session_id_set(self.listed());
        let ghost before = self.selection();
        let mut ids: Vec<String> = Vec::new();
        {
            let listed = self.filtered_sessions();
            let mut k: usize = 0;
            while k < listed.len()
                invariant
                    k <= listed@.len(),
                    listed@.map_values(|s: &SessionSummary| *s) == self.listed(),
                    ids@.len() == k,
                    forall|j: int| 0 <= j < k ==> (#[trigger] ids@[j])@ == listed@[j].id@,
                decreases listed@.len() - k,
            {
                ids.push(listed[k].id.clone());
                k = k + 1;
            }
            proof {
                assert forall|x: Seq<char>| view_set(ids@).contains(x) == listed_ids.contains(x) by {
                    if view_set(ids@).contains(x) {
                        let j = choose|j: int| 0 <= j < ids@.len() && ids@[j]@ == x;
                        assert(listed@.map_values(|s: &SessionSummary| *s)[j] == *listed@[j]);
                    }
                    if listed_ids.contains(x) {
                        let j = choose|j: int| 0 <= j < self.listed().len() && #[trigger] self.listed()[j].id@ == x;
                        assert(listed@.map_values(|s: &SessionSummary| *s)[j] == *listed@[j]);
                        assert(ids@[j]@ == x);
                    }
                }
            }
        }
        let mut changed = false;
        let mut i: usize = 0;
        while i < ids.len()
            invariant
                i <= ids@.len(),
                sorted_views(self.selected_ids@),
                *self == (SessionViewState { selected_ids: self.selected_ids, ..*old(self) }),
                self.selection() == before.union(view_set(ids@.subrange(0, i as int))),
                changed == !view_set(ids@.subrange(0, i as int)).subset_of(before),
            decreases ids@.len() - i,
        {
            let ghost prefix = ids@.subrange(0, i as int);
            let ghost next_prefix = ids@.subrange(0, i + 1);
            proof {
                assert(next_prefix =~= prefix.push(ids@[i as int]));
                assert(view_set(next_prefix) =~= view_set(prefix).insert(ids@[i as int]@)) by {
                    assert forall|x: Seq<char>| view_set(next_prefix).contains(x) == view_set(prefix).insert(ids@[i as int]@).contains(x) by {
                        if view_set(next_prefix).contains(x) {
                            let j = choose|j: int| 0 <= j < next_prefix.len() && next_prefix[j]@ == x;
                            if j < prefix.len() {
                                assert(prefix[j] == next_prefix[j]);
                            }
                        }
                        if view_set(prefix).contains(x) {
                            let j = choose|j: int| 0 <= j < prefix.len() && prefix[j]@ == x;
                            assert(next_prefix[j] == prefix[j]);
                        }
                        if x == ids@[i as int]@ {
                            assert(next_prefix[i as int] == ids@[i as int]);
                        }
                    }
                }
            }
            let inserted = insert_text(&mut self.selected_ids, ids[i].as_str());
            proof {
                assert(self.selection() =~= before.union(view_set(next_prefix)));
                if inserted {
                    assert(!before.contains(ids@[i as int]@));
                    assert(view_set(next_prefix).contains(ids@[i as int]@));
                } else {
                    assert(view_set(next_prefix).subset_of(before) == view_set(prefix).subset_of(before));
                }
            }
            changed = changed || inserted;
            i = i + 1;
        }
        proof {
            assert(ids@.subrange(0, ids@.len() as int) =~= ids@);
        }
        changed
    }

    /// Empties the selection; reports whether it held anything. Nothing
    /// changes while a delete runs.
    pub fn clear_selection(&mut self) -> (changed: bool)
        requires
            old(self).well_formed(),
        ensures
            final(self).well_formed(),
            *final(self) == (SessionViewState { selected_ids: final(self).selected_ids, ..*old(self) }),
            old(self).delete_phase == OperationPhase::Running ==> !changed && final(self).selected_ids == old(self).selected_ids,
            old(self).delete_phase != OperationPhase::Running ==> final(self).selected_ids@.len() == 0
                && changed == (old(self).selected_ids@.len() != 0),
    {
        if self.delete_phase == OperationPhase::Running {
            return false;
        }
        let changed = self.selected_ids.len() != 0;
        self.selected_ids = Vec::new();
        changed
    }

    /// Installs a workspace: the selection keeps only ids the workspace still
    /// holds and the page is clamped to the new list.
    fn install_workspace(&mut self, workspace: SessionWorkspace)
        requires
            old(self).well_formed(),
        ensures
            final(self).well_formed(),
            final(self).selection() == old(self).selection().intersect(session_id_set(workspace.sessions@)),
            final(self).workspace == Some(workspace),
            final(self).page == clamped_page(old(self).page as nat, final(self).listed().len()),
            *final(self) == (SessionViewState {
                selected_ids: final(self).selected_ids,
                workspace: Some(workspace),
                page: final(self).page,
                ..*old(self)
            }),
    {
        let keep = ids_of(&workspace.sessions);
        retain_texts(&mut self.selected_ids, &keep);
        self.workspace = Some(workspace);
        let last = self.page_count() - 1;
        if self.page > last {
            self.page = last;
        }
    }

    /// Starts a workspace load and returns its request id.
    pub fn begin_workspace_refresh(&mut self) -> (request_id: u64)
        requires
            old(self).current_workspace_request_id < u64::MAX,
        ensures
            request_id == old(self).current_workspace_request_id + 1,
            *final(self) == (SessionViewState {
                current_workspace_request_id: request_id,
                workspace_phase: OperationPhase::Running,
                workspace_error: None,
                ..*old(self)
            }),
    {
        self.current_workspace_request_id = next_id(self.current_workspace_request_id);
        self.workspace_phase = OperationPhase::Running;
        self.workspace_error = None;
        self.current_workspace_request_id
    }

    /// Applies the answer to a workspace load; only the current request
    /// counts. A new workspace is installed; a failure keeps the old one.
    pub fn apply_workspace_response(
        &mut self,
        request_id: u64,
        result: Result<SessionWorkspace, SessionFailureKind<SE>>,
    ) -> (applied: bool)
        requires
            old(self).well_formed(),
        ensures
            final(self).well_formed(),
            applied == (request_id == old(self).current_workspace_request_id),
            workspace_answered(*old(self), request_id, result, *final(self)),
    {
        if request_id != self.current_workspace_request_id {
            return false;
        }
        match result {
            Ok(workspace) => {
                self.install_workspace(workspace);
                self.workspace_phase = OperationPhase::Ready;
                self.workspace_error = None;
            },
            Err(error) => {
                self.workspace_phase = OperationPhase::Error;
                self.workspace_error = Some(error);
            },
        }
        true
    }
}

} // verus!

verus! {

/// A session chosen for deletion, with the revision the delete expects.
#[derive(Debug)]
pub struct DeleteSessionSelection {
    pub id: String,
    pub expected_revision: String,
}

/// The delete request sent to the session service.
#[derive(Debug)]
pub struct DeleteSessions {
    pub selections: Vec<DeleteSessionSelection>,
    pub confirmed_ids: Vec<String>,
}

/// The result of a finished delete: the workspace afterwards and the
/// service's report on each session.
#[derive(Debug)]
pub struct SessionDeleteBatchOutcome<DR> {
    pub workspace: SessionWorkspace,
    pub report: DR,
}

/// The sessions of a list whose ids are selected, in list order.
pub open spec fn selected_in(sessions: Seq<SessionSummary>, selection: Set<Seq<char>>) -> Seq<SessionSummary> {
    sessions.filter(|s: SessionSummary| selection.contains(s.id@))
}

/// The text a delete preview shows for a session: its title, or its id when
/// the title is blank.
pub open spec fn preview_text(session: SessionSummary) -> Seq<char> {
    if trimmed(session.title@).len() == 0 {
        session.id@
    } else {
        session.title@
    }
}

/// The last position before `n` of a session with the id, or -1.
pub open spec fn last_index_with_id(sessions: Seq<SessionSummary>, id: Seq<char>, n: int) -> int
    decreases n,
{
    if n <= 0 || n > sessions.len() {
        -1
    } else if sessions[n - 1].id@ == id {
        n - 1
    } else {
        last_index_with_id(sessions, id, n - 1)
    }
}

proof fn lemma_last_index_with_id(sessions: Seq<SessionSummary>, id: Seq<char>, n: int)
    requires
        0 <= n <= sessions.len(),
    ensures
        -1 <= last_index_with_id(sessions, id, n) < n,
        last_index_with_id(sessions, id, n) >= 0 ==> sessions[last_index_with_id(sessions, id, n)].id@ == id,
        last_index_with_id(sessions, id, n) < 0 ==> forall|i: int| 0 <= i < n ==> #[trigger] sessions[i].id@ != id,
    decreases n,
{
    if n > 0 && sessions[n - 1].id@ != id {
        lemma_last_index_with_id(sessions, id, n - 1);
    }
}

/// The position of the last session with the id, as the id index the
/// delete builds keeps the last session of each id.
fn last_session_with_id(sessions: &Vec<SessionSummary>, id: &str) -> (found: Option<usize>)
    ensures
        match found {
            Some(i) => i as int == last_index_with_id(sessions@, id@, sessions@.len() as int),
            None => last_index_with_id(sessions@, id@, sessions@.len() as int) == -1,
        },
{
    let mut n = sessions.len();
    while n > 0
        invariant
            n <= sessions@.len(),
            last_index_with_id(sessions@, id@, sessions@.len() as int) == last_index_with_id(sessions@, id@, n as int),
        decreases n,
    {
        if crate::format::text_eq(sessions[n - 1].id.as_str(), id) {
            return Some(n - 1);
        }
        n = n - 1;
    }
    None
}

/// The text shown for a session in a delete preview.
fn preview_of(session: &SessionSummary) -> (text: String)
    ensures
        text@ == preview_text(*session),
{
    let title_chars = chars_of(session.title.as_str());
    let trimmed_title = trim_chars(&title_chars);
    if trimmed_title.len() == 0 {
        session.id.clone()
    } else {
        session.title.clone()
    }
}

impl<SE, PE, DR, PR> SessionViewState<SE, PE, DR, PR> {
    /// A delete cannot be asked for: the worker stopped, a delete runs or
    /// awaits confirmation, a provider sync awaits confirmation, nothing is
    /// selected or no workspace is loaded.
    pub open spec fn delete_request_blocked(&self) -> bool {
        ||| self.worker_stopped
        ||| self.delete_phase == OperationPhase::Running
        ||| self.delete_confirmation is Some
        ||| self.provider_run_confirmation is Some
        ||| self.selected_ids@.len() == 0
        ||| self.workspace is None
    }

    /// Opens the delete confirmation for the selected sessions, in workspace
    /// order, with up to six previews; reports whether it opened. It stays
    /// closed while blocked, and when some selected id is missing from the
    /// workspace or held by several of its sessions.
    pub fn request_delete(&mut self) -> (requested: bool)
        requires
            old(self).well_formed(),
        ensures
            final(self).well_formed(),
            ({
                let chosen = selected_in(old(self).sessions(), old(self).selection());
                if old(self).delete_request_blocked() || chosen.len() != old(self).selected_ids@.len() {
                    !requested && *final(self) == *old(self)
                } else {
                    &&& requested
                    &&& final(self).delete_confirmation is Some
                    &&& crate::string_set::views(final(self).delete_confirmation->0.session_ids@)
                        == chosen.map_values(|s: SessionSummary| s.id@)
                    &&& crate::string_set::views(final(self).delete_confirmation->0.previews@)
                        == chosen.take(if chosen.len() < 6 { chosen.len() as int } else { 6 }).map_values(
                        |s: SessionSummary| preview_text(s),
                    )
                    &&& *final(self) == (SessionViewState {
                        delete_confirmation: final(self).delete_confirmation,
                        delete_error: None,
                        ..*old(self)
                    })
                }
            }),
    {
        if self.worker_stopped || self.delete_phase == OperationPhase::Running
            || self.delete_confirmation.is_some() || self.provider_run_confirmation.is_some()
            || self.selected_ids.len() == 0 {
            return false;
        }
        let mut session_ids: Vec<String> = Vec::new();
        let mut previews: Vec<String> = Vec::new();
        match &self.workspace {
            None => {
                return false;
            },
            Some(workspace) => {
                let sessions = &workspace.sessions;
                let ghost selection = self.selection();
                let ghost pred = |s: SessionSummary| selection.contains(s.id@);
                let mut i: usize = 0;
                while i < sessions.len()
                    invariant
                        i <= sessions@.len(),
                        sessions@ == old(self).sessions(),
                        selection == old(self).selection(),
                        pred == (|s: SessionSummary| selection.contains(s.id@)),
                        *self == *old(self),
                        crate::string_set::views(session_ids@) == sessions@.take(i as int).filter(pred).map_values(|s: SessionSummary| s.id@),
                        crate::string_set::views(previews@) == ({
                            let sel = sessions@.take(i as int).filter(pred);
                            sel.take(if sel.len() < 6 { sel.len() as int } else { 6 }).map_values(|s: SessionSummary| preview_text(s))
                        }),
                        session_ids@.len() == sessions@.take(i as int).filter(pred).len(),
                    decreases sessions@.len() - i,
                {
                    let ghost before_sel = sessions@.take(i as int).filter(pred);
                    let ghost old_ids = session_ids@;
                    let ghost old_previews = previews@;
                    proof {
                        reveal(Seq::filter);
                        let prefix = sessions@.take(i + 1);
                        assert(prefix.drop_last() =~= sessions@.take(i as int));
                        assert(prefix.last() == sessions@[i as int]);
                        assert(prefix.filter(pred) == (if pred(sessions@[i as int]) {
                            before_sel.push(sessions@[i as int])
                        } else {
                            before_sel
                        }));
                    }
                    if contains_text_in(&self.selected_ids, sessions[i].id.as_str()) {
                        let ghost after_sel = before_sel.push(sessions@[i as int]);
                        if session_ids.len() < DELETE_PREVIEW_LIMIT {
                            let preview = preview_of(&sessions[i]);
                            previews.push(preview);
                            proof {
                                assert(before_sel.len() < 6);
                                assert(before_sel.take(before_sel.len() as int) =~= before_sel);
                                assert(after_sel.take(after_sel.len() as int) =~= after_sel);
                                assert(crate::string_set::views(previews@) =~= crate::string_set::views(old_previews).push(preview@));
                                assert(crate::string_set::views(previews@) =~= after_sel.take(
                                    if after_sel.len() < 6 { after_sel.len() as int } else { 6 },
                                ).map_values(|s: SessionSummary| preview_text(s)));
                            }
                        } else {
                            proof {
                                assert(after_sel.take(6) =~= before_sel.take(6));
                            }
                        }
                        let id = sessions[i].id.clone();
                        session_ids.push(id);
                        proof {
                            assert(crate::string_set::views(session_ids@) =~= crate::string_set::views(old_ids).push(id@));
                            assert(crate::string_set::views(session_ids@) =~= after_sel.map_values(|s: SessionSummary| s.id@));
                        }
                    }
                    i = i + 1;
                }
                proof {
                    assert(sessions@.take(sessions@.len() as int) =~= sessions@);
                }
            },
        }
        if session_ids.len() != self.selected_ids.len() {
            return false;
        }
        self.delete_confirmation = Some(DeleteConfirmation { session_ids, previews });
        self.delete_error = None;
        true
    }

    /// Closes the delete confirmation unless a delete runs; reports whether
    /// one was open.
    pub fn cancel_delete(&mut self) -> (cancelled: bool)
        ensures
            old(self).delete_phase == OperationPhase::Running ==> !cancelled && *final(self) == *old(self),
            old(self).delete_phase != OperationPhase::Running ==> cancelled == old(self).delete_confirmation is Some
                && *final(self) == (SessionViewState { delete_confirmation: None, ..*old(self) }),
    {
        if self.delete_phase == OperationPhase::Running {
            return false;
        }
        let cancelled = self.delete_confirmation.is_some();
        self.delete_confirmation = None;
        cancelled
    }
}

} // verus!

verus! {

/// The selections of a delete: for each confirmed id, in order, the last
/// session of the workspace with that id and its revision.
pub open spec fn selections_match(
    selections: Seq<DeleteSessionSelection>,
    ids: Seq<String>,
    sessions: Seq<SessionSummary>,
) -> bool {
    &&& selections.len() == ids.len()
    &&& all_ids_found(ids, sessions)
    &&& forall|k: int| 0 <= k < ids.len() ==> (#[trigger] selections[k]).id@ == ids[k]@
        && selections[k].expected_revision@ == sessions[last_index_with_id(sessions, ids[k]@, sessions.len() as int)].revision@
}

/// Every confirmed id names some session of the workspace.
pub open spec fn all_ids_found(ids: Seq<String>, sessions: Seq<SessionSummary>) -> bool {
    forall|k: int| 0 <= k < ids.len() ==> last_index_with_id(sessions, (#[trigger] ids[k])@, sessions.len() as int) >= 0
}

/// Builds the selections of a delete, or nothing when an id is missing.
fn build_selections(ids: &Vec<String>, sessions: &Vec<SessionSummary>) -> (selections: Option<Vec<DeleteSessionSelection>>)
    ensures
        match selections {
            Some(found) => selections_match(found@, ids@, sessions@),
            None => !all_ids_found(ids@, sessions@),
        },
{
    let mut selections: Vec<DeleteSessionSelection> = Vec::new();
    let mut k: usize = 0;
    while k < ids.len()
        invariant
            k <= ids@.len(),
            selections_match(selections@, ids@.take(k as int), sessions@),
        decreases ids@.len() - k,
    {
        match last_session_with_id(sessions, ids[k].as_str()) {
            None => {
                proof {
                    assert(last_index_with_id(sessions@, ids@[k as int]@, sessions@.len() as int) < 0);
                }
                return None;
            },
            Some(at) => {
                proof {
                    lemma_last_index_with_id(sessions@, ids@[k as int]@, sessions@.len() as int);
                }
                let ghost old_selections = selections@;
                selections.push(DeleteSessionSelection { id: ids[k].clone(), expected_revision: sessions[at].revision.clone() });
                proof {
                    let taken = ids@.take(k + 1);
                    assert(selections@[k as int].id@ == ids@[k as int]@);
                    assert(selections@[k as int].expected_revision@ == sessions@[at as int].revision@);
                    assert forall|j: int| 0 <= j < taken.len() implies last_index_with_id(sessions@, (#[trigger] taken[j])@, sessions@.len() as int) >= 0
                        && selections@[j].id@ == taken[j]@
                        && selections@[j].expected_revision@ == sessions@[last_index_with_id(sessions@, taken[j]@, sessions@.len() as int)].revision@ by {
                        if j < k {
                            let prev = ids@.take(k as int);
                            assert(taken[j] == prev[j]);
                            assert(selections@[j] == old_selections[j]);
                            assert(old_selections[j].id@ == prev[j]@);
                            assert(last_index_with_id(sessions@, (prev[j])@, sessions@.len() as int) >= 0);
                        } else {
                            assert(taken[j] == ids@[k as int]);
                        }
                    }
                    assert(selections_match(selections@, taken, sessions@));
                }
            },
        }
        k = k + 1;
    }
    proof {
        assert(ids@.take(ids@.len() as int) =~= ids@);
    }
    Some(selections)
}

/// Whether every text of `a` is also in `b`.
fn all_contained(a: &Vec<String>, b: &Vec<String>) -> (contained: bool)
    ensures
        contained == view_set(a@).subset_of(view_set(b@)),
{
    let mut i: usize = 0;
    while i < a.len()
        invariant
            i <= a@.len(),
            forall|j: int| 0 <= j < i ==> view_set(b@).contains(#[trigger] a@[j]@),
        decreases a@.len() - i,
    {
        if !contains_text_in(b, a[i].as_str()) {
            proof {
                assert(view_set(a@).contains(a@[i as int]@));
            }
            return false;
        }
        i = i + 1;
    }
    proof {
        assert forall|x: Seq<char>| view_set(a@).contains(x) implies view_set(b@).contains(x) by {
            let j = choose|j: int| 0 <= j < a@.len() && a@[j]@ == x;
        }
    }
    true
}

impl<SE, PE, DR, PR> SessionViewState<SE, PE, DR, PR> {
    /// Starts the confirmed delete and returns its request id and request.
    /// Nothing starts when the worker stopped, a delete runs, nothing awaits
    /// confirmation, the workspace is gone or a confirmed id left it; a
    /// confirmation whose ids no longer match the selection is dropped.
    pub fn confirm_delete(&mut self) -> (started: Option<(u64, DeleteSessions)>)
        requires
            !(old(self).worker_stopped || old(self).delete_phase == OperationPhase::Running
                || old(self).delete_confirmation is None) && view_set(
                old(self).delete_confirmation->0.session_ids@,
            ) == old(self).selection() && old(self).workspace is Some && all_ids_found(
                old(self).delete_confirmation->0.session_ids@,
                old(self).sessions(),
            ) ==> old(self).current_delete_request_id < u64::MAX,
        ensures
            (old(self).worker_stopped || old(self).delete_phase == OperationPhase::Running
                || old(self).delete_confirmation is None) ==> started is None && *final(self) == *old(self),
            !(old(self).worker_stopped || old(self).delete_phase == OperationPhase::Running
                || old(self).delete_confirmation is None) ==> ({
                let confirmation = old(self).delete_confirmation->0;
                if view_set(confirmation.session_ids@) != old(self).selection() {
                    started is None && *final(self) == (SessionViewState { delete_confirmation: None, ..*old(self) })
                } else if old(self).workspace is None || !all_ids_found(confirmation.session_ids@, old(self).sessions()) {
                    started is None && *final(self) == *old(self)
                } else {
                    &&& started matches Some((request_id, request))
                    &&& request_id == old(self).current_delete_request_id + 1
                    &&& selections_match(request.selections@, confirmation.session_ids@, old(self).sessions())
                    &&& request.confirmed_ids == confirmation.session_ids
                    &&& *final(self) == (SessionViewState {
                        current_delete_request_id: (old(self).current_delete_request_id + 1) as u64,
                        delete_phase: OperationPhase::Running,
                        delete_error: None,
                        delete_outcome: None,
                        delete_confirmation: None,
                        ..*old(self)
                    })
                }
            }),
    {
        if self.worker_stopped || self.delete_phase == OperationPhase::Running {
            return None;
        }
        let selections = match &self.delete_confirmation {
            None => {
                return None;
            },
            Some(confirmation) => {
                let same = all_contained(&confirmation.session_ids, &self.selected_ids) && all_contained(
                    &self.selected_ids,
                    &confirmation.session_ids,
                );
                proof {
                    if same {
                        assert(view_set(confirmation.session_ids@) =~= self.selection());
                    }
                }
                proof {
                    if !same {
                        if view_set(confirmation.session_ids@) == self.selection() {
                            assert(view_set(confirmation.session_ids@).subset_of(self.selection()));
                            assert(self.selection().subset_of(view_set(confirmation.session_ids@)));
                        }
                    }
                }
                if !same {
                    self.delete_confirmation = None;
                    return None;
                }
                match &self.workspace {
                    None => {
                        return None;
                    },
                    Some(workspace) => match build_selections(&confirmation.session_ids, &workspace.sessions) {
                        None => {
                            return None;
                        },
                        Some(selections) => selections,
                    },
                }
            },
        };
        let ghost before_take = self.delete_confirmation;
        let confirmed_ids = match self.delete_confirmation.take() {
            Some(confirmation) => confirmation.session_ids,
            None => Vec::new(),
        };
        assert(confirmed_ids == before_take->0.session_ids);
        self.current_delete_request_id = next_id(self.current_delete_request_id);
        self.delete_phase = OperationPhase::Running;
        self.delete_error = None;
        self.delete_outcome = None;
        Some((self.current_delete_request_id, DeleteSessions { selections, confirmed_ids }))
    }

    /// Applies the answer to a delete; only the current request counts. A
    /// finished delete installs the workspace it reports and supersedes any
    /// workspace load in flight; a failure keeps the workspace.
    pub fn apply_delete_response(
        &mut self,
        request_id: u64,
        result: Result<SessionDeleteBatchOutcome<DR>, SessionFailureKind<SE>>,
    ) -> (applied: bool)
        requires
            old(self).well_formed(),
            (request_id == old(self).current_delete_request_id && result is Ok)
                ==> old(self).current_workspace_request_id < u64::MAX,
        ensures
            final(self).well_formed(),
            applied == (request_id == old(self).current_delete_request_id),
            delete_answered(*old(self), request_id, result, *final(self)),
    {
        if request_id != self.current_delete_request_id {
            return false;
        }
        match result {
            Ok(outcome) => {
                self.current_workspace_request_id = next_id(self.current_workspace_request_id);
                self.install_workspace(outcome.workspace);
                self.delete_outcome = Some(outcome.report);
                self.delete_phase = OperationPhase::Ready;
                self.delete_error = None;
                self.workspace_phase = OperationPhase::Ready;
                self.workspace_error = None;
            },
            Err(error) => {
                self.delete_phase = OperationPhase::Error;
                self.delete_error = Some(error);
            },
        }
        true
    }
}

} // verus!

verus! {

/// The provider-sync run request: the target and its confirmation.
#[derive(Debug)]
pub struct RunProviderSync {
    pub target_provider: String,
    pub confirmed_target_provider: String,
}

/// The request that turns provider auto repair on or off.
#[derive(Debug)]
pub struct SetProviderAutoRepair {
    pub expected_revision: String,
    pub enabled: bool,
}

/// The result of a finished provider sync: the workspace afterwards and the
/// service's report.
#[derive(Debug)]
pub struct ProviderSyncOutcome<PR> {
    pub workspace: ProviderSyncWorkspace,
    pub report: PR,
}

/// The provider ids of a provider-sync workspace.
pub open spec fn target_set(workspace: ProviderSyncWorkspace) -> Set<Seq<char>> {
    view_set(workspace.target_ids@)
}

impl<SE, PE, DR, PR> SessionViewState<SE, PE, DR, PR> {
    /// Starts a provider-sync workspace load and returns its request id;
    /// nothing starts while the worker is stopped or a sync or auto-repair
    /// change runs.
    pub fn begin_provider_workspace_refresh(&mut self) -> (request_id: Option<u64>)
        requires
            !(old(self).worker_stopped || old(self).provider_run_phase == OperationPhase::Running
                || old(self).auto_repair_phase == OperationPhase::Running)
                ==> old(self).current_provider_workspace_request_id < u64::MAX,
        ensures
            (old(self).worker_stopped || old(self).provider_run_phase == OperationPhase::Running
                || old(self).auto_repair_phase == OperationPhase::Running) ==> request_id is None
                && *final(self) == *old(self),
            !(old(self).worker_stopped || old(self).provider_run_phase == OperationPhase::Running
                || old(self).auto_repair_phase == OperationPhase::Running) ==> request_id == Some(
                (old(self).current_provider_workspace_request_id + 1) as u64,
            ) && *final(self) == (SessionViewState {
                current_provider_workspace_request_id: (old(self).current_provider_workspace_request_id + 1) as u64,
                provider_workspace_phase: OperationPhase::Running,
                provider_workspace_error: None,
                ..*old(self)
            }),
    {
        if self.worker_stopped || self.provider_run_phase == OperationPhase::Running
            || self.auto_repair_phase == OperationPhase::Running {
            return None;
        }
        self.current_provider_workspace_request_id = next_id(self.current_provider_workspace_request_id);
        self.provider_workspace_phase = OperationPhase::Running;
        self.provider_workspace_error = None;
        Some(self.current_provider_workspace_request_id)
    }

    /// Applies the answer to a provider-sync workspace load; only the current
    /// request counts. The chosen target is kept while the workspace still
    /// offers it, otherwise the workspace's suggestion replaces it.
    pub fn apply_provider_workspace_response(
        &mut self,
        request_id: u64,
        result: Result<ProviderSyncWorkspace, ProviderSyncFailureKind<PE>>,
    ) -> (applied: bool)
        ensures
            applied == (request_id == old(self).current_provider_workspace_request_id),
            provider_workspace_answered(*old(self), request_id, result, *final(self)),
    {
        if request_id != self.current_provider_workspace_request_id {
            return false;
        }
        match result {
            Ok(workspace) => {
                if self.selected_provider_target.as_str().unicode_len() == 0 || !contains_text_in(
                    &workspace.target_ids,
                    self.selected_provider_target.as_str(),
                ) {
                    self.selected_provider_target = workspace.selected_target.clone();
                }
                self.provider_workspace = Some(workspace);
                self.provider_workspace_phase = OperationPhase::Ready;
                self.provider_workspace_error = None;
            },
            Err(error) => {
                self.provider_workspace_phase = OperationPhase::Error;
                self.provider_workspace_error = Some(error);
            },
        }
        true
    }

    /// Chooses the target provider of the next sync; reports whether it
    /// changed. Only a target the workspace offers can be chosen, and not
    /// while a sync runs or awaits confirmation.
    pub fn set_provider_target(&mut self, target: String) -> (changed: bool)
        ensures
            ({
                let allowed = old(self).provider_run_phase != OperationPhase::Running
                    && old(self).provider_run_confirmation is None
                    && old(self).provider_workspace is Some
                    && target_set(old(self).provider_workspace->0).contains(target@);
                &&& !allowed ==> !changed && *final(self) == *old(self)
                &&& allowed ==> changed == (old(self).selected_provider_target@ != target@)
                    && *final(self) == (SessionViewState { selected_provider_target: target, ..*old(self) })
            }),
    {
        if self.provider_run_phase == OperationPhase::Running || self.provider_run_confirmation.is_some() {
            return false;
        }
        let offered = match &self.provider_workspace {
            Some(workspace) => contains_text_in(&workspace.target_ids, target.as_str()),
            None => false,
        };
        if !offered {
            return false;
        }
        let changed = !crate::format::text_eq(self.selected_provider_target.as_str(), target.as_str());
        self.selected_provider_target = target;
        changed
    }

    /// A sync cannot be asked for: the worker stopped, a sync or auto-repair
    /// change runs, or a confirmation is open.
    pub open spec fn provider_run_blocked(&self) -> bool {
        ||| self.worker_stopped
        ||| self.provider_run_phase == OperationPhase::Running
        ||| self.auto_repair_phase == OperationPhase::Running
        ||| self.provider_run_confirmation is Some
    }

    /// Opens the sync confirmation for the chosen target; reports whether it
    /// opened. A delete confirmation or a blank target keeps it closed.
    pub fn request_provider_run_confirmation(&mut self) -> (requested: bool)
        ensures
            (old(self).provider_run_blocked() || old(self).delete_confirmation is Some
                || trimmed(old(self).selected_provider_target@).len() == 0) ==> !requested
                && *final(self) == *old(self),
            !(old(self).provider_run_blocked() || old(self).delete_confirmation is Some
                || trimmed(old(self).selected_provider_target@).len() == 0) ==> requested
                && *final(self) == (SessionViewState {
                provider_run_confirmation: Some(old(self).selected_provider_target),
                provider_run_error: None,
                ..*old(self)
            }),
    {
        if self.worker_stopped || self.provider_run_phase == OperationPhase::Running
            || self.auto_repair_phase == OperationPhase::Running
            || self.provider_run_confirmation.is_some() || self.delete_confirmation.is_some() {
            return false;
        }
        let target_chars = chars_of(self.selected_provider_target.as_str());
        if trim_chars(&target_chars).len() == 0 {
            return false;
        }
        self.provider_run_confirmation = Some(self.selected_provider_target.clone());
        self.provider_run_error = None;
        true
    }

    /// Closes the sync confirmation unless a sync runs; reports whether one
    /// was open.
    pub fn cancel_provider_run_confirmation(&mut self) -> (cancelled: bool)
        ensures
            old(self).provider_run_phase == OperationPhase::Running ==> !cancelled && *final(self) == *old(self),
            old(self).provider_run_phase != OperationPhase::Running ==> cancelled
                == old(self).provider_run_confirmation is Some && *final(self) == (SessionViewState {
                provider_run_confirmation: None,
                ..*old(self)
            }),
    {
        if self.provider_run_phase == OperationPhase::Running {
            return false;
        }
        let cancelled = self.provider_run_confirmation.is_some();
        self.provider_run_confirmation = None;
        cancelled
    }

    /// Starts a sync for the chosen target and returns its request id and
    /// request. Nothing starts while blocked or for a blank target.
    pub fn begin_provider_run(&mut self) -> (started: Option<(u64, RunProviderSync)>)
        requires
            !(old(self).provider_run_blocked() || trimmed(old(self).selected_provider_target@).len() == 0)
                ==> old(self).current_provider_run_request_id < u64::MAX,
        ensures
            (old(self).provider_run_blocked() || trimmed(old(self).selected_provider_target@).len() == 0)
                ==> started is None && *final(self) == *old(self),
            !(old(self).provider_run_blocked() || trimmed(old(self).selected_provider_target@).len() == 0)
                ==> (started matches Some((request_id, request))
                && request_id == old(self).current_provider_run_request_id + 1
                && request.target_provider == old(self).selected_provider_target
                && request.confirmed_target_provider == old(self).selected_provider_target
                && *final(self) == (SessionViewState {
                    current_provider_run_request_id: (old(self).current_provider_run_request_id + 1) as u64,
                    provider_run_phase: OperationPhase::Running,
                    provider_run_error: None,
                    provider_outcome: None,
                    ..*old(self)
                })),
    {
        if self.worker_stopped || self.provider_run_phase == OperationPhase::Running
            || self.auto_repair_phase == OperationPhase::Running
            || self.provider_run_confirmation.is_some() {
            return None;
        }
        let target_chars = chars_of(self.selected_provider_target.as_str());
        if trim_chars(&target_chars).len() == 0 {
            return None;
        }
        self.current_provider_run_request_id = next_id(self.current_provider_run_request_id);
        self.provider_run_phase = OperationPhase::Running;
        self.provider_run_error = None;
        self.provider_outcome = None;
        Some(
            (
                self.current_provider_run_request_id,
                RunProviderSync {
                    target_provider: self.selected_provider_target.clone(),
                    confirmed_target_provider: self.selected_provider_target.clone(),
                },
            ),
        )
    }

    /// Starts the confirmed sync. The confirmation is consumed; nothing
    /// starts when the chosen target changed since it was confirmed.
    pub fn confirm_provider_run(&mut self) -> (started: Option<(u64, RunProviderSync)>)
        requires
            old(self).provider_run_confirmation matches Some(confirmed) ==> (confirmed@ == old(self).selected_provider_target@ && !(SessionViewState {
                provider_run_confirmation: None,
                ..*old(self)
            }).provider_run_blocked() && trimmed(
                old(self).selected_provider_target@,
            ).len() != 0 ==> old(self).current_provider_run_request_id < u64::MAX),
        ensures
            old(self).provider_run_confirmation is None ==> started is None && *final(self) == *old(self),
            old(self).provider_run_confirmation matches Some(confirmed) && confirmed@ != old(self).selected_provider_target@ ==> started is None && *final(self) == (SessionViewState {
                provider_run_confirmation: None,
                ..*old(self)
            }),
            old(self).provider_run_confirmation matches Some(confirmed) && confirmed@ == old(self).selected_provider_target@ ==> ({
                let cleared = SessionViewState { provider_run_confirmation: None, ..*old(self) };
                if cleared.provider_run_blocked() || trimmed(cleared.selected_provider_target@).len() == 0 {
                    started is None && *final(self) == cleared
                } else {
                    started matches Some((request_id, request))
                        && request_id == old(self).current_provider_run_request_id + 1
                        && request.target_provider == old(self).selected_provider_target
                        && request.confirmed_target_provider == old(self).selected_provider_target
                        && *final(self) == (SessionViewState {
                            current_provider_run_request_id: (old(self).current_provider_run_request_id + 1) as u64,
                            provider_run_phase: OperationPhase::Running,
                            provider_run_error: None,
                            provider_outcome: None,
                            ..cleared
                        })
                }
            }),
    {
        let confirmed = match self.provider_run_confirmation.take() {
            Some(confirmed) => confirmed,
            None => {
                return None;
            },
        };
        if !crate::format::text_eq(confirmed.as_str(), self.selected_provider_target.as_str()) {
            return None;
        }
        self.begin_provider_run()
    }

    /// Applies the answer to a sync; only the current request counts. A
    /// finished sync installs the workspace it reports and its suggested target.
    pub fn apply_provider_run_response(
        &mut self,
        request_id: u64,
        result: Result<ProviderSyncOutcome<PR>, ProviderSyncFailureKind<PE>>,
    ) -> (applied: bool)
        ensures
            applied == (request_id == old(self).current_provider_run_request_id),
            provider_run_answered(*old(self), request_id, result, *final(self)),
    {
        if request_id != self.current_provider_run_request_id {
            return false;
        }
        match result {
            Ok(outcome) => {
                self.selected_provider_target = outcome.workspace.selected_target.clone();
                self.provider_workspace = Some(outcome.workspace);
                self.provider_outcome = Some(outcome.report);
                self.provider_run_phase = OperationPhase::Ready;
                self.provider_run_error = None;
            },
            Err(error) => {
                self.provider_run_phase = OperationPhase::Error;
                self.provider_run_error = Some(error);
            },
        }
        true
    }

    /// Starts turning auto repair on or off and returns its request id and
    /// request. Nothing starts while blocked or without a workspace.
    pub fn begin_set_auto_repair(&mut self, enabled: bool) -> (started: Option<(u64, SetProviderAutoRepair)>)
        requires
            !(old(self).provider_run_blocked() || old(self).provider_workspace is None)
                ==> old(self).current_auto_repair_request_id < u64::MAX,
        ensures
            (old(self).provider_run_blocked() || old(self).provider_workspace is None) ==> started is None
                && *final(self) == *old(self),
            !(old(self).provider_run_blocked() || old(self).provider_workspace is None) ==> (started matches Some(
                (request_id, request),
            ) && request_id == old(self).current_auto_repair_request_id + 1 && request.enabled == enabled
                && request.expected_revision == old(self).provider_workspace->0.revision
                && *final(self) == (SessionViewState {
                current_auto_repair_request_id: (old(self).current_auto_repair_request_id + 1) as u64,
                auto_repair_phase: OperationPhase::Running,
                auto_repair_error: None,
                ..*old(self)
            })),
    {
        if self.worker_stopped || self.provider_run_phase == OperationPhase::Running
            || self.auto_repair_phase == OperationPhase::Running
            || self.provider_run_confirmation.is_some() {
            return None;
        }
        let revision = match &self.provider_workspace {
            Some(workspace) => workspace.revision.clone(),
            None => {
                return None;
            },
        };
        self.current_auto_repair_request_id = next_id(self.current_auto_repair_request_id);
        self.auto_repair_phase = OperationPhase::Running;
        self.auto_repair_error = None;
        Some((self.current_auto_repair_request_id, SetProviderAutoRepair { expected_revision: revision, enabled }))
    }

    /// Applies the answer to an auto-repair change; only the current request
    /// counts.
    pub fn apply_auto_repair_response(
        &mut self,
        request_id: u64,
        result: Result<ProviderSyncWorkspace, ProviderSyncFailureKind<PE>>,
    ) -> (applied: bool)
        ensures
            applied == (request_id == old(self).current_auto_repair_request_id),
            auto_repair_answered(*old(self), request_id, result, *final(self)),
    {
        if request_id != self.current_auto_repair_request_id {
            return false;
        }
        match result {
            Ok(workspace) => {
                self.provider_workspace = Some(workspace);
                self.auto_repair_phase = OperationPhase::Ready;
                self.auto_repair_error = None;
            },
            Err(error) => {
                self.auto_repair_phase = OperationPhase::Error;
                self.auto_repair_error = Some(error);
            },
        }
        true
    }

    /// Records that the worker stopped: every running operation fails with a
    /// stopped worker and the open sync confirmation closes.
    pub fn mark_worker_stopped(&mut self)
        ensures
            *final(self) == (SessionViewState {
                worker_stopped: true,
                provider_run_confirmation: None,
                workspace_phase: if old(self).workspace_phase == OperationPhase::Running {
                    OperationPhase::Error
                } else {
                    old(self).workspace_phase
                },
                workspace_error: if old(self).workspace_phase == OperationPhase::Running {
                    Some(SessionFailureKind::WorkerStopped)
                } else {
                    old(self).workspace_error
                },
                delete_phase: if old(self).delete_phase == OperationPhase::Running {
                    OperationPhase::Error
                } else {
                    old(self).delete_phase
                },
                delete_error: if old(self).delete_phase == OperationPhase::Running {
                    Some(SessionFailureKind::WorkerStopped)
                } else {
                    old(self).delete_error
                },
                provider_workspace_phase: if old(self).provider_workspace_phase == OperationPhase::Running {
                    OperationPhase::Error
                } else {
                    old(self).provider_workspace_phase
                },
                provider_workspace_error: if old(self).provider_workspace_phase == OperationPhase::Running {
                    Some(SessionFailureKind::WorkerStopped)
                } else {
                    old(self).provider_workspace_error
                },
                provider_run_phase: if old(self).provider_run_phase == OperationPhase::Running {
                    OperationPhase::Error
                } else {
                    old(self).provider_run_phase
                },
                provider_run_error: if old(self).provider_run_phase == OperationPhase::Running {
                    Some(SessionFailureKind::WorkerStopped)
                } else {
                    old(self).provider_run_error
                },
                auto_repair_phase: if old(self).auto_repair_phase == OperationPhase::Running {
                    OperationPhase::Error
                } else {
                    old(self).auto_repair_phase
                },
                auto_repair_error: if old(self).auto_repair_phase == OperationPhase::Running {
                    Some(SessionFailureKind::WorkerStopped)
                } else {
                    old(self).auto_repair_error
                },
                ..*old(self)
            }),
    {
        self.worker_stopped = true;
        self.provider_run_confirmation = None;
        if self.workspace_phase == OperationPhase::Running {
            self.workspace_phase = OperationPhase::Error;
            self.workspace_error = Some(SessionFailureKind::WorkerStopped);
        }
        if self.delete_phase == OperationPhase::Running {
            self.delete_phase = OperationPhase::Error;
            self.delete_error = Some(SessionFailureKind::WorkerStopped);
        }
        if self.provider_workspace_phase == OperationPhase::Running {
            self.provider_workspace_phase = OperationPhase::Error;
            self.provider_workspace_error = Some(SessionFailureKind::WorkerStopped);
        }
        if self.provider_run_phase == OperationPhase::Running {
            self.provider_run_phase = OperationPhase::Error;
            self.provider_run_error = Some(SessionFailureKind::WorkerStopped);
        }
        if self.auto_repair_phase == OperationPhase::Running {
            self.auto_repair_phase = OperationPhase::Error;
            self.auto_repair_error = Some(SessionFailureKind::WorkerStopped);
        }
    }

    /// The failure to show once the worker has stopped.
    pub fn worker_failure(&self) -> (failure: Option<SessionFailureKind<SE>>)
        ensures
            failure == (if self.worker_stopped {
                Some(SessionFailureKind::<SE>::WorkerStopped)
            } else {
                None
            }),
    {
        if self.worker_stopped {
            Some(SessionFailureKind::WorkerStopped)
        } else {
            None
        }
    }

    /// Whether a delete, sync or auto-repair change may be started now.
    pub fn mutations_enabled(&self) -> (enabled: bool)
        ensures
            enabled == (!self.worker_stopped && self.delete_phase != OperationPhase::Running
                && self.provider_run_phase != OperationPhase::Running
                && self.auto_repair_phase != OperationPhase::Running),
    {
        !self.worker_stopped && self.delete_phase != OperationPhase::Running
            && self.provider_run_phase != OperationPhase::Running
            && self.auto_repair_phase != OperationPhase::Running
    }
}

} // verus!

verus! {

/// How an answer to a workspace load changes the page: an answer to another
/// request changes nothing; a workspace replaces the old one, the selection
/// keeps only ids it still holds and the page stays within its pages; a
/// failure is shown and the old workspace kept.
pub open spec fn workspace_answered<SE, PE, DR, PR>(
    before: SessionViewState<SE, PE, DR, PR>,
    request_id: u64,
    result: Result<SessionWorkspace, SessionFailureKind<SE>>,
    after: SessionViewState<SE, PE, DR, PR>,
) -> bool {
    if request_id != before.current_workspace_request_id {
        after == before
    } else {
        match result {
            Ok(workspace) => after.workspace == Some(workspace)
                && after.selection() == before.selection().intersect(session_id_set(workspace.sessions@))
                && after.page == clamped_page(before.page as nat, after.listed().len())
                && after.workspace_phase == OperationPhase::Ready
                && after.workspace_error is None
                && after == (SessionViewState {
                    selected_ids: after.selected_ids,
                    workspace: Some(workspace),
                    page: after.page,
                    workspace_phase: OperationPhase::Ready,
                    workspace_error: None,
                    ..before
                }),
            Err(error) => after == (SessionViewState {
                workspace_phase: OperationPhase::Error,
                workspace_error: Some(error),
                ..before
            }),
        }
    }
}

/// How an answer to a delete changes the page: an answer to another request
/// changes nothing; a finished delete installs the workspace it reports as a
/// newer load would, and keeps its report; a failure is shown.
pub open spec fn delete_answered<SE, PE, DR, PR>(
    before: SessionViewState<SE, PE, DR, PR>,
    request_id: u64,
    result: Result<SessionDeleteBatchOutcome<DR>, SessionFailureKind<SE>>,
    after: SessionViewState<SE, PE, DR, PR>,
) -> bool {
    if request_id != before.current_delete_request_id {
        after == before
    } else {
        match result {
            Ok(outcome) => after.workspace == Some(outcome.workspace)
                && after.selection() == before.selection().intersect(session_id_set(outcome.workspace.sessions@))
                && after.page == clamped_page(before.page as nat, after.listed().len())
                && after == (SessionViewState {
                    current_workspace_request_id: (before.current_workspace_request_id + 1) as u64,
                    selected_ids: after.selected_ids,
                    workspace: Some(outcome.workspace),
                    page: after.page,
                    delete_outcome: Some(outcome.report),
                    delete_phase: OperationPhase::Ready,
                    delete_error: None,
                    workspace_phase: OperationPhase::Ready,
                    workspace_error: None,
                    ..before
                }),
            Err(error) => after == (SessionViewState {
                delete_phase: OperationPhase::Error,
                delete_error: Some(error),
                ..before
            }),
        }
    }
}

/// How an answer to a provider-sync workspace load changes the page: an answer
/// to another request changes nothing; the chosen target stays while the new
/// workspace offers it, else the suggested one replaces it; a failure is shown.
pub open spec fn provider_workspace_answered<SE, PE, DR, PR>(
    before: SessionViewState<SE, PE, DR, PR>,
    request_id: u64,
    result: Result<ProviderSyncWorkspace, ProviderSyncFailureKind<PE>>,
    after: SessionViewState<SE, PE, DR, PR>,
) -> bool {
    if request_id != before.current_provider_workspace_request_id {
        after == before
    } else {
        match result {
            Ok(workspace) => after == (SessionViewState {
                selected_provider_target: if before.selected_provider_target@.len() == 0
                    || !target_set(workspace).contains(before.selected_provider_target@) {
                    workspace.selected_target
                } else {
                    before.selected_provider_target
                },
                provider_workspace: Some(workspace),
                provider_workspace_phase: OperationPhase::Ready,
                provider_workspace_error: None,
                ..before
            }),
            Err(error) => after == (SessionViewState {
                provider_workspace_phase: OperationPhase::Error,
                provider_workspace_error: Some(error),
                ..before
            }),
        }
    }
}

/// How an answer to a sync changes the page: an answer to another request
/// changes nothing; a finished sync installs its workspace, suggested target
/// and report; a failure is shown.
pub open spec fn provider_run_answered<SE, PE, DR, PR>(
    before: SessionViewState<SE, PE, DR, PR>,
    request_id: u64,
    result: Result<ProviderSyncOutcome<PR>, ProviderSyncFailureKind<PE>>,
    after: SessionViewState<SE, PE, DR, PR>,
) -> bool {
    if request_id != before.current_provider_run_request_id {
        after == before
    } else {
        match result {
            Ok(outcome) => after == (SessionViewState {
                selected_provider_target: outcome.workspace.selected_target,
                provider_workspace: Some(outcome.workspace),
                provider_outcome: Some(outcome.report),
                provider_run_phase: OperationPhase::Ready,
                provider_run_error: None,
                ..before
            }),
            Err(error) => after == (SessionViewState {
                provider_run_phase: OperationPhase::Error,
                provider_run_error: Some(error),
                ..before
            }),
        }
    }
}

/// How an answer to an auto-repair change changes the page: an answer to
/// another request changes nothing; the workspace it reports replaces the
/// old one; a failure is shown.
pub open spec fn auto_repair_answered<SE, PE, DR, PR>(
    before: SessionViewState<SE, PE, DR, PR>,
    request_id: u64,
    result: Result<ProviderSyncWorkspace, ProviderSyncFailureKind<PE>>,
    after: SessionViewState<SE, PE, DR, PR>,
) -> bool {
    if request_id != before.current_auto_repair_request_id {
        after == before
    } else {
        match result {
            Ok(workspace) => after == (SessionViewState {
                provider_workspace: Some(workspace),
                auto_repair_phase: OperationPhase::Ready,
                auto_repair_error: None,
                ..before
            }),
            Err(error) => after == (SessionViewState {
                auto_repair_phase: OperationPhase::Error,
                auto_repair_error: Some(error),
                ..before
            }),
        }
    }
}

/// An answer of the session worker, its service error already reduced to a
/// failure kind.
pub enum SessionResponse<SE, PE, DR, PR> {
    SessionsLoaded { request_id: u64, result: Result<SessionWorkspace, SessionFailureKind<SE>> },
    SessionsDeleted { request_id: u64, result: Result<SessionDeleteBatchOutcome<DR>, SessionFailureKind<SE>> },
    ProviderSyncLoaded { request_id: u64, result: Result<ProviderSyncWorkspace, ProviderSyncFailureKind<PE>> },
    ProviderSyncRan { request_id: u64, result: Result<ProviderSyncOutcome<PR>, ProviderSyncFailureKind<PE>> },
    AutoRepairSaved { request_id: u64, result: Result<ProviderSyncWorkspace, ProviderSyncFailureKind<PE>> },
}

impl<SE, PE, DR, PR> SessionViewState<SE, PE, DR, PR> {
    /// Applies one answer of the worker. Reports whether it brought fresh
    /// data: an answer to the current request that succeeded.
    pub fn apply_response(&mut self, response: SessionResponse<SE, PE, DR, PR>) -> (refreshed: bool)
        requires
            old(self).well_formed(),
            response matches SessionResponse::SessionsDeleted { request_id, result } ==> (request_id
                == old(self).current_delete_request_id && result is Ok ==> old(self).current_workspace_request_id
                < u64::MAX),
        ensures
            final(self).well_formed(),
            match response {
                SessionResponse::SessionsLoaded { request_id, result } => workspace_answered(
                    *old(self),
                    request_id,
                    result,
                    *final(self),
                ) && refreshed == (request_id == old(self).current_workspace_request_id && result is Ok),
                SessionResponse::SessionsDeleted { request_id, result } => delete_answered(
                    *old(self),
                    request_id,
                    result,
                    *final(self),
                ) && refreshed == (request_id == old(self).current_delete_request_id && result is Ok),
                SessionResponse::ProviderSyncLoaded { request_id, result } => provider_workspace_answered(
                    *old(self),
                    request_id,
                    result,
                    *final(self),
                ) && refreshed == (request_id == old(self).current_provider_workspace_request_id && result is Ok),
                SessionResponse::ProviderSyncRan { request_id, result } => provider_run_answered(
                    *old(self),
                    request_id,
                    result,
                    *final(self),
                ) && refreshed == (request_id == old(self).current_provider_run_request_id && result is Ok),
                SessionResponse::AutoRepairSaved { request_id, result } => auto_repair_answered(
                    *old(self),
                    request_id,
                    result,
                    *final(self),
                ) && refreshed == (request_id == old(self).current_auto_repair_request_id && result is Ok),
            },
    {
        match response {
            SessionResponse::SessionsLoaded { request_id, result } => {
                let succeeded = result.is_ok();
                let applied = self.apply_workspace_response(request_id, result);
                applied && succeeded
            },
            SessionResponse::SessionsDeleted { request_id, result } => {
                let succeeded = result.is_ok();
                let applied = self.apply_delete_response(request_id, result);
                applied && succeeded
            },
            SessionResponse::ProviderSyncLoaded { request_id, result } => {
                let succeeded = result.is_ok();
                let applied = self.apply_provider_workspace_response(request_id, result);
                applied && succeeded
            },
            SessionResponse::ProviderSyncRan { request_id, result } => {
                let succeeded = result.is_ok();
                let applied = self.apply_provider_run_response(request_id, result);
                applied && succeeded
            },
            SessionResponse::AutoRepairSaved { request_id, result } => {
                let succeeded = result.is_ok();
                let applied = self.apply_auto_repair_response(request_id, result);
                applied && succeeded
            },
        }
    }
}


/// A search finds a session through any of its fields: a session the filter
/// lets through is listed when its id, title, working directory, model
/// provider or one of its database paths, in lower case, contains the key of
/// the query, or when the query is blank; and the list holds only sessions
/// that the filter lets through.
pub proof fn law_search_finds_sessions_by_each_field(
    sessions: Seq<SessionSummary>,
    filter: SessionFilter,
    query: Seq<char>,
    j: int,
)
    requires
        0 <= j < sessions.len(),
    ensures
        ({
            let s = sessions[j];
            let key = query_key(query);
            filter_admits(filter, s.archived) && (key.len() == 0 || contains_text(lowercase(s.id@), key)
                || contains_text(lowercase(s.title@), key) || contains_text(lowercase(s.cwd@), key)
                || contains_text(lowercase(s.model_provider@), key) || (exists|k: int|
                0 <= k < s.source_db_paths@.len() && contains_text(
                    lowercase(#[trigger] s.source_db_paths@[k]@),
                    key,
                ))) ==> listed_sessions(sessions, filter, key).contains(s)
        }),
        forall|s: SessionSummary| #[trigger] listed_sessions(sessions, filter, query_key(query)).contains(s)
            ==> sessions.contains(s) && filter_admits(filter, s.archived),
{
    let key = query_key(query);
    let pred = |s: SessionSummary| session_listed(s, filter, key);
    if pred(sessions[j]) {
        sessions.lemma_filter_contains(pred, j);
    }
    assert forall|s: SessionSummary| #[trigger] listed_sessions(sessions, filter, key).contains(s) implies sessions.contains(s)
        && filter_admits(filter, s.archived) by {
        sessions.lemma_filter_contains_rev(pred, s);
        let i = choose|i: int| 0 <= i < sessions.filter(pred).len() && sessions.filter(pred)[i] == s;
        sessions.lemma_filter_pred(pred, i);
    }
}

} // verus!
