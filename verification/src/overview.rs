use vstd::prelude::*;

verus! {

/// The pages of the native manager.
#[derive(Debug, Clone, Copy, PartialEq, Eq, Structural)]
pub enum Route {
    Overview,
    Providers,
    About,
}

impl Default for Route {
    /// The manager opens on the overview.
    fn default() -> (route: Self)
        ensures
            route == Route::Overview,
    {
        Route::Overview
    }
}

/// Where the overview page is in loading its snapshot.
#[derive(Debug, Clone, Copy, PartialEq, Eq, Structural)]
pub enum OverviewPhase {
    Idle,
    Loading,
    Ready,
    Refreshing,
    Error,
}

impl Default for OverviewPhase {
    fn default() -> (phase: Self)
        ensures
            phase == OverviewPhase::Idle,
    {
        OverviewPhase::Idle
    }
}

/// Why an overview load failed.
#[derive(Debug, Clone, Copy, PartialEq, Eq, Structural)]
pub enum OverviewFailureKind {
    LoadFailed,
    WorkerStopped,
}

/// The overview page's state: the phase, the id of the request whose answer
/// it waits for, the last snapshot that loaded and the last failure. The
/// snapshot type is left open; the state never looks inside it.
#[derive(Debug)]
pub struct OverviewViewState<S> {
    pub phase: OverviewPhase,
    pub current_request_id: u64,
    pub snapshot: Option<S>,
    pub error: Option<OverviewFailureKind>,
}

/// The state after a refresh starts: a new request id, and loading or
/// refreshing depending on whether a snapshot is already shown.
pub open spec fn spec_begin_refresh<S>(s: OverviewViewState<S>) -> OverviewViewState<S> {
    OverviewViewState {
        phase: if s.snapshot is Some {
            OverviewPhase::Refreshing
        } else {
            OverviewPhase::Loading
        },
        current_request_id: (s.current_request_id + 1) as u64,
        snapshot: s.snapshot,
        error: s.error,
    }
}

/// The state after a response arrives, and whether it was taken: only the
/// answer to the current request counts; a success replaces the snapshot and
/// clears the failure, a failure keeps the last good snapshot.
pub open spec fn spec_apply_response<S>(
    s: OverviewViewState<S>,
    request_id: u64,
    result: Result<S, OverviewFailureKind>,
) -> (OverviewViewState<S>, bool) {
    if request_id != s.current_request_id {
        (s, false)
    } else {
        match result {
            Ok(snapshot) => (
                OverviewViewState {
                    phase: OverviewPhase::Ready,
                    current_request_id: s.current_request_id,
                    snapshot: Some(snapshot),
                    error: None,
                },
                true,
            ),
            Err(error) => (
                OverviewViewState {
                    phase: OverviewPhase::Error,
                    current_request_id: s.current_request_id,
                    snapshot: s.snapshot,
                    error: Some(error),
                },
                true,
            ),
        }
    }
}

impl<S> Default for OverviewViewState<S> {
    fn default() -> (state: Self)
        ensures
            state.phase == OverviewPhase::Idle,
            state.current_request_id == 0,
            state.snapshot is None,
            state.error is None,
    {
        OverviewViewState {
            phase: OverviewPhase::Idle,
            current_request_id: 0,
            snapshot: None,
            error: None,
        }
    }
}

/// The state of the whole manager: the page shown, the overview page, and
/// the provider page, whose state type is left open.
#[derive(Debug)]
pub struct AppState<S, P> {
    pub route: Route,
    pub overview: OverviewViewState<S>,
    pub provider: P,
}

impl<S, P: Default> Default for AppState<S, P> {
    /// The manager starts on the overview, with nothing loaded.
    fn default() -> (state: Self)
        ensures
            state.route == Route::Overview,
            state.overview.phase == OverviewPhase::Idle,
            state.overview.current_request_id == 0,
            state.overview.snapshot is None,
            state.overview.error is None,
    {
        AppState { route: Route::Overview, overview: OverviewViewState::default(), provider: P::default() }
    }
}

impl<S> OverviewViewState<S> {
    /// Starts a refresh and returns its request id. The id must not overflow.
    pub fn begin_refresh(&mut self) -> (request_id: u64)
        requires
            old(self).current_request_id < u64::MAX,
        ensures
            *final(self) == spec_begin_refresh(*old(self)),
            request_id == final(self).current_request_id,
    {
        self.current_request_id = self.current_request_id + 1;
        self.phase = if self.snapshot.is_some() {
            OverviewPhase::Refreshing
        } else {
            OverviewPhase::Loading
        };
        self.current_request_id
    }

    /// Applies the response to a request and reports whether it was current.
    pub fn apply_response(&mut self, request_id: u64, result: Result<S, OverviewFailureKind>) -> (applied: bool)
        ensures
            (*final(self), applied) == spec_apply_response(*old(self), request_id, result),
    {
        if request_id != self.current_request_id {
            return false;
        }
        match result {
            Ok(snapshot) => {
                self.snapshot = Some(snapshot);
                self.error = None;
                self.phase = OverviewPhase::Ready;
            },
            Err(error) => {
                self.error = Some(error);
                self.phase = OverviewPhase::Error;
            },
        }
        true
    }
}

/// Once a refresh has started, the answer to any earlier request is ignored
/// and changes nothing.
pub proof fn law_stale_response_ignored<S>(
    s: OverviewViewState<S>,
    earlier: u64,
    result: Result<S, OverviewFailureKind>,
)
    requires
        s.current_request_id < u64::MAX,
        earlier <= s.current_request_id,
    ensures
        spec_apply_response(spec_begin_refresh(s), earlier, result) == (spec_begin_refresh(s), false),
{
}

/// A shown snapshot is never lost: refreshing keeps it, and a failed load
/// keeps the last good one.
pub proof fn law_snapshot_kept_until_replaced<S>(
    s: OverviewViewState<S>,
    request_id: u64,
    error: OverviewFailureKind,
)
    requires
        s.current_request_id < u64::MAX,
    ensures
        spec_begin_refresh(s).snapshot == s.snapshot,
        spec_apply_response(s, request_id, Err(error)).0.snapshot == s.snapshot,
{
}

/// A successful answer to the current request always leaves the page ready
/// with no failure shown.
pub proof fn law_current_success_clears_error<S>(s: OverviewViewState<S>, snapshot: S)
    ensures
        spec_apply_response(s, s.current_request_id, Ok(snapshot)) == (
            OverviewViewState {
                phase: OverviewPhase::Ready,
                current_request_id: s.current_request_id,
                snapshot: Some(snapshot),
                error: None,
            },
            true,
        ),
{
}

} // verus!
