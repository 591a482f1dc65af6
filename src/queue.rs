use vstd::prelude::*;

verus! {

/// The number of permits a queue is given when it is asked for none: so many
/// that admission is never throttled.
pub const UNBOUNDED_PERMITS: usize = usize::MAX >> 4;

/// The permits a queue starts with: zero stands for no limit.
pub fn effective_permits(permits: usize) -> (r: usize)
    ensures
        permits == 0 ==> r == UNBOUNDED_PERMITS,
        permits != 0 ==> r == permits,
{
    if permits == 0 {
        UNBOUNDED_PERMITS
    } else {
        permits
    }
}

/// What polling the semaphore for a permit gave.
#[derive(Clone, Copy, Debug, PartialEq, Eq, Structural)]
pub enum PermitPoll {
    Granted,
    Closed,
    Pending,
}

/// Where one acquisition stands between polls.
#[derive(Clone, Copy, Debug, PartialEq, Eq, Structural)]
pub struct AcquireState {
    /// The request was put in the queue's list of waiting entries.
    pub registered: bool,
    /// The request has been pending at least once.
    pub has_pending: bool,
    /// The acquisition has finished; it is not polled again.
    pub done: bool,
}

/// What the caller does after one poll.
#[derive(Clone, Copy, Debug, PartialEq, Eq, Structural)]
pub enum AcquireAction {
    /// Fail: the entry was removed from the queue while it waited; `keyed`
    /// tells whether it had been registered under its key.
    Aborted { keyed: bool },
    /// Take the entry out of the waiting list, then settle with
    /// `after_removal`, passing on whether the permit was granted.
    Deregister { granted: bool },
    /// Succeed with the permit.
    Acquired,
    /// Fail: the semaphore was closed.
    AcquireFailed,
    /// Register the entry in the waiting list, then wait.
    RegisterAndWait,
    /// Wait for the next wake-up.
    Wait,
}

/// Where an acquisition stands before its first poll.
pub fn initial_acquire_state() -> (r: AcquireState)
    ensures
        r == (AcquireState { registered: false, has_pending: false, done: false }),
{
    AcquireState { registered: false, has_pending: false, done: false }
}

/// One poll of an acquisition: an abort wins over everything; a settled
/// semaphore poll first takes a registered entry out of the waiting list; a
/// pending one registers the entry on its first wait.
pub fn on_poll(state: AcquireState, aborted: bool, permit: PermitPoll) -> (r: (AcquireState, AcquireAction))
    requires
        !state.done,
    ensures
        aborted ==> r.1 == (AcquireAction::Aborted { keyed: state.registered }) && r.0.done,
        !aborted && permit != PermitPoll::Pending && state.registered ==> r.1 == (AcquireAction::Deregister {
            granted: permit == PermitPoll::Granted,
        }) && !r.0.done && !r.0.registered,
        !aborted && permit == PermitPoll::Granted && !state.registered ==> r.1 == AcquireAction::Acquired && r.0.done,
        !aborted && permit == PermitPoll::Closed && !state.registered ==> r.1 == AcquireAction::AcquireFailed
            && r.0.done,
        !aborted && permit == PermitPoll::Pending ==> r.0.has_pending && r.0.registered && !r.0.done && r.1 == (
        if state.registered {
            AcquireAction::Wait
        } else {
            AcquireAction::RegisterAndWait
        }),
{
    if aborted {
        return (AcquireState { done: true, ..state }, AcquireAction::Aborted { keyed: state.registered });
    }
    match permit {
        PermitPoll::Pending => {
            let action = if state.registered {
                AcquireAction::Wait
            } else {
                AcquireAction::RegisterAndWait
            };
            (AcquireState { registered: true, has_pending: true, done: false }, action)
        },
        _ => {
            let granted = permit == PermitPoll::Granted;
            if state.registered {
                (AcquireState { registered: false, ..state }, AcquireAction::Deregister { granted })
            } else if granted {
                (AcquireState { done: true, ..state }, AcquireAction::Acquired)
            } else {
                (AcquireState { done: true, ..state }, AcquireAction::AcquireFailed)
            }
        },
    }
}

/// Settles an acquisition after its entry was taken out of the waiting list:
/// an entry that was no longer there had been removed by someone else, which
/// aborts the acquisition even if the permit came.
pub fn after_removal(state: AcquireState, still_queued: bool, granted: bool) -> (r: (AcquireState, AcquireAction))
    ensures
        r.0.done,
        !still_queued ==> r.1 == (AcquireAction::Aborted { keyed: true }),
        still_queued && granted ==> r.1 == AcquireAction::Acquired,
        still_queued && !granted ==> r.1 == AcquireAction::AcquireFailed,
{
    let next = AcquireState { done: true, ..state };
    if !still_queued {
        (next, AcquireAction::Aborted { keyed: true })
    } else if granted {
        (next, AcquireAction::Acquired)
    } else {
        (next, AcquireAction::AcquireFailed)
    }
}

} // verus!
