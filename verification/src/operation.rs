use vstd::prelude::*;

verus! {

/// Where a background operation of a page stands.
#[derive(Debug, Clone, Copy, PartialEq, Eq, Structural)]
pub enum OperationPhase {
    Idle,
    Running,
    Ready,
    Error,
}

impl Default for OperationPhase {
    fn default() -> (phase: Self)
        ensures
            phase == OperationPhase::Idle,
    {
        OperationPhase::Idle
    }
}

/// The id after `current`, for a request counter that must not overflow.
pub fn next_id(current: u64) -> (next: u64)
    requires
        current < u64::MAX,
    ensures
        next == current + 1,
{
    current + 1
}

} // verus!
