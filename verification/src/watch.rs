//! Watching the state of the connection for the one failure that ends the
//! process.

use vstd::prelude::*;

verus! {

/// The state of the connection, as the transport reports it.
#[derive(Clone, Copy, Debug, PartialEq, Eq, Structural)]
pub enum ConnectionState {
    /// Nothing was tried yet.
    New,
    /// A connection is being made.
    Connecting,
    /// The peers are connected.
    Connected,
    /// The connection is lost for now, and may come back.
    Disconnected,
    /// The connection is lost for good.
    Failed,
    /// The connection was closed.
    Closed,
}

/// Remembers whether the completion signal was given. It can only be made
/// with no signal given and moved on by reports, so it always remembers what
/// the reports that it has taken make.
#[derive(Clone, Copy)]
pub struct FailureWatch {
    signalled: bool,
    states: Ghost<Seq<ConnectionState>>,
}

/// A watch as a mathematical value.
pub struct FailureWatchView {
    /// Whether the signal was given.
    pub signalled: bool,
    /// The reports that the watch has taken, the first one first.
    pub states: Seq<ConnectionState>,
}

impl View for FailureWatch {
    type V = FailureWatchView;

    closed spec fn view(&self) -> FailureWatchView {
        FailureWatchView { signalled: self.signalled, states: self.states@ }
    }
}

/// Whether the signal was given in the course of these reports.
pub open spec fn signalled_after(states: Seq<ConnectionState>) -> bool
    decreases states.len(),
{
    if states.len() == 0 {
        false
    } else {
        signalled_after(states.drop_last()) || states.last() == ConnectionState::Failed
    }
}

/// Whether the report at `i` gives the signal.
pub open spec fn signals_at(states: Seq<ConnectionState>, i: int) -> bool {
    states[i] == ConnectionState::Failed && !signalled_after(states.take(i))
}

impl FailureWatch {
    #[verifier::type_invariant]
    spec fn remembers_its_reports(self) -> bool {
        self.signalled == signalled_after(self.states@)
    }

    /// A watch that has given no signal.
    pub fn new() -> (r: FailureWatch)
        ensures
            !r@.signalled,
            r@.states == Seq::<ConnectionState>::empty(),
    {
        FailureWatch { signalled: false, states: Ghost(Seq::empty()) }
    }

    /// Whether the signal was given: whether a failure is among the reports
    /// that the watch has taken.
    pub fn signalled(&self) -> (r: bool)
        ensures
            r == self@.signalled,
            r == signalled_after(self@.states),
    {
        proof {
            use_type_invariant(self);
        }
        self.signalled
    }

    /// Takes a report of the connection's state and says whether to give the
    /// completion signal: on the first report of a failure, and on no other.
    pub fn on_state(&mut self, state: ConnectionState) -> (signal: bool)
        ensures
            final(self)@.states == old(self)@.states.push(state),
            final(self)@.signalled == (old(self)@.signalled || state == ConnectionState::Failed),
            signal == (state == ConnectionState::Failed && !old(self)@.signalled),
            signal == signals_at(final(self)@.states, old(self)@.states.len() as int),
            signal ==> forall|j: int|
                0 <= j < old(self)@.states.len() ==> !signals_at(final(self)@.states, j),
    {
        proof {
            use_type_invariant(&*self);
        }
        let ghost taken = self.states@;
        let failed = match state {
            ConnectionState::Failed => true,
            _ => false,
        };
        let signal = failed && !self.signalled;
        let signalled = self.signalled || failed;
        proof {
            let states = taken.push(state);
            assert(states.drop_last() =~= taken);
            assert(states.take(taken.len() as int) =~= taken);
            if signal {
                assert forall|j: int| 0 <= j < taken.len() implies !signals_at(states, j) by {
                    if signals_at(states, j) {
                        lemma_signals_at_most_once(states, j, taken.len() as int);
                    }
                }
            }
        }
        *self = FailureWatch { signalled, states: Ghost(taken.push(state)) };
        signal
    }
}

/// Once a failure was reported, the signal counts as given for good.
pub proof fn lemma_signalled_stays(states: Seq<ConnectionState>, i: int, j: int)
    requires
        0 <= i <= j <= states.len(),
        signalled_after(states.take(i)),
    ensures
        signalled_after(states.take(j)),
    decreases j - i,
{
    if i < j {
        lemma_signalled_stays(states, i, j - 1);
        assert(states.take(j).drop_last() =~= states.take(j - 1));
    }
}

/// The signal is given at most once, however often a failure is reported.
pub proof fn lemma_signals_at_most_once(states: Seq<ConnectionState>, i: int, j: int)
    requires
        0 <= i < j < states.len(),
        signals_at(states, i),
    ensures
        !signals_at(states, j),
{
    assert(states.take(i + 1).drop_last() =~= states.take(i));
    assert(signalled_after(states.take(i + 1)));
    lemma_signalled_stays(states, i + 1, j);
}

/// The signal is given on the first report of a failure: where it is given,
/// no failure was reported before.
pub proof fn lemma_signal_is_the_first_failure(states: Seq<ConnectionState>, i: int, k: int)
    requires
        0 <= k < i < states.len(),
        signals_at(states, i),
    ensures
        states[k] != ConnectionState::Failed,
{
    if states[k] == ConnectionState::Failed {
        assert(states.take(k + 1).drop_last() =~= states.take(k));
        assert(states.take(k + 1).last() == states[k]);
        assert(signalled_after(states.take(k + 1)));
        lemma_signalled_stays(states, k + 1, i);
    }
}

} // verus!
