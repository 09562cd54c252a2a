//! The decryption side-service manager: a tri-state lifecycle cell with a
//! compare-and-set transition, so that under any number of `ensure_started`
//! calls the startup side effect is performed at most once per process, and
//! exactly once as soon as one call carries non-empty key-broker parameters.
//!
//! The cell never regresses: once out of `NotStarted` it stays out, even when
//! startup fails (fail-fast: a later request will not retry startup).

use vstd::prelude::*;

verus! {

#[derive(Clone, Copy, Debug, PartialEq, Eq, Structural)]
pub enum SideState {
    NotStarted,
    Starting,
    Running,
}

/// What one `ensure_started` call tells its caller to do.
#[derive(Clone, Copy, Debug, PartialEq, Eq, Structural)]
pub enum StartDecision {
    /// Broker parameters are empty: no decryption is configured, nothing to start.
    NoDecryption,
    /// This caller won the transition out of `NotStarted` and must perform
    /// the startup sequence.
    Winner,
    /// Another caller already owns (or finished) startup; proceed at once.
    AlreadyStarted,
}

/// The decision `ensure_started` makes from the state it finds.
pub open spec fn decision_spec(state: SideState, kbc_params: Seq<char>) -> StartDecision {
    if kbc_params.len() == 0 {
        StartDecision::NoDecryption
    } else if state == SideState::NotStarted {
        StartDecision::Winner
    } else {
        StartDecision::AlreadyStarted
    }
}

/// The state `ensure_started` leaves behind.
pub open spec fn next_state_spec(state: SideState, kbc_params: Seq<char>) -> SideState {
    if kbc_params.len() > 0 && state == SideState::NotStarted {
        SideState::Starting
    } else {
        state
    }
}

pub struct SideServiceManager {
    state: SideState,
}

impl SideServiceManager {
    pub closed spec fn state(self) -> SideState {
        self.state
    }

    pub fn new() -> (r: Self)
        ensures
            r.state() == SideState::NotStarted,
    {
        SideServiceManager { state: SideState::NotStarted }
    }

    /// The compare-and-set: a no-op on empty broker parameters; otherwise the
    /// caller that finds `NotStarted` wins and must perform startup, and
    /// every other caller returns at once.
    pub fn ensure_started(&mut self, kbc_params: &str) -> (d: StartDecision)
        ensures
            d == decision_spec(old(self).state(), kbc_params@),
            final(self).state() == next_state_spec(old(self).state(), kbc_params@),
    {
        if kbc_params.is_empty() {
            StartDecision::NoDecryption
        } else if matches!(self.state, SideState::NotStarted) {
            self.state = SideState::Starting;
            StartDecision::Winner
        } else {
            StartDecision::AlreadyStarted
        }
    }

    /// Called by the winner once the startup sequence succeeded. On failure
    /// nothing is called: the state stays `Starting` for the rest of the
    /// process (fail-fast, no retry path).
    pub fn mark_running(&mut self)
        requires
            old(self).state() == SideState::Starting,
        ensures
            final(self).state() == SideState::Running,
    {
        self.state = SideState::Running;
    }

    /// The current lifecycle state, for callers outside the library.
    pub fn current_state(&self) -> (s: SideState)
        ensures
            s == self.state(),
    {
        self.state
    }
}

/// The state after a sequence of `ensure_started` calls, one parameter string
/// per call, applied in order.
pub open spec fn state_after(init: SideState, calls: Seq<Seq<char>>) -> SideState
    decreases calls.len(),
{
    if calls.len() == 0 {
        init
    } else {
        next_state_spec(state_after(init, calls.drop_last()), calls.last())
    }
}

/// The decision the `i`-th call of the sequence receives.
pub open spec fn decision_at(init: SideState, calls: Seq<Seq<char>>, i: int) -> StartDecision {
    decision_spec(state_after(init, calls.subrange(0, i)), calls[i])
}

/// Once the cell has left `NotStarted`, no later sequence of calls brings it
/// back: the lifecycle is monotonic.
pub proof fn lemma_no_regress(init: SideState, calls: Seq<Seq<char>>)
    requires
        init != SideState::NotStarted,
    ensures
        state_after(init, calls) != SideState::NotStarted,
    decreases calls.len(),
{
    if calls.len() > 0 {
        lemma_no_regress(init, calls.drop_last());
    }
}

/// Splitting a call sequence splits the state computation.
pub proof fn lemma_state_after_concat(init: SideState, a: Seq<Seq<char>>, b: Seq<Seq<char>>)
    ensures
        state_after(init, a + b) == state_after(state_after(init, a), b),
    decreases b.len(),
{
    if b.len() == 0 {
        assert((a + b) =~= a);
    } else {
        assert((a + b).drop_last() =~= a + b.drop_last());
        assert((a + b).last() == b.last());
        lemma_state_after_concat(init, a, b.drop_last());
    }
}

/// At most one call of any sequence is told it won the startup transition.
pub proof fn lemma_winner_unique(init: SideState, calls: Seq<Seq<char>>, i: int, j: int)
    requires
        0 <= i < j < calls.len(),
        decision_at(init, calls, i) == StartDecision::Winner,
    ensures
        decision_at(init, calls, j) != StartDecision::Winner,
{
    let si = state_after(init, calls.subrange(0, i));
    assert(si == SideState::NotStarted && calls[i].len() > 0);
    assert(calls.subrange(0, i + 1).drop_last() =~= calls.subrange(0, i));
    assert(calls.subrange(0, i + 1).last() == calls[i]);
    assert(state_after(init, calls.subrange(0, i + 1)) == SideState::Starting);
    assert(calls.subrange(0, j) =~= calls.subrange(0, i + 1) + calls.subrange(i + 1, j));
    lemma_state_after_concat(init, calls.subrange(0, i + 1), calls.subrange(i + 1, j));
    lemma_no_regress(SideState::Starting, calls.subrange(i + 1, j));
}

/// Calls with empty broker parameters leave the state alone.
pub proof fn lemma_empty_calls_keep_state(init: SideState, calls: Seq<Seq<char>>)
    requires
        forall|k: int| 0 <= k < calls.len() ==> calls[k].len() == 0,
    ensures
        state_after(init, calls) == init,
    decreases calls.len(),
{
    if calls.len() > 0 {
        lemma_empty_calls_keep_state(init, calls.drop_last());
    }
}

/// From a fresh cell, the first call that carries non-empty broker
/// parameters is told to perform startup: together with uniqueness, the
/// startup side effect happens exactly once.
pub proof fn lemma_first_nonempty_call_wins(calls: Seq<Seq<char>>, i: int)
    requires
        0 <= i < calls.len(),
        calls[i].len() > 0,
        forall|k: int| 0 <= k < i ==> calls[k].len() == 0,
    ensures
        decision_at(SideState::NotStarted, calls, i) == StartDecision::Winner,
{
    lemma_empty_calls_keep_state(SideState::NotStarted, calls.subrange(0, i));
}

} // verus!
