//! Single-fire shutdown broadcast. The signal has exactly one meaningful
//! transition (unset to fired); firing is idempotent, and every receiver
//! observes the transition at most once. A receiver subscribed after the
//! fire immediately sees "already fired".

use vstd::prelude::*;

verus! {

/// The sender side: a single slot that can only ever move from unset to
/// fired, never back.
pub struct ShutdownSignal {
    fired: bool,
}

/// One observer of the signal.
pub struct ShutdownReceiver {
    caught_up: bool,
}

/// What one observation of the signal yields.
pub enum Observation {
    /// The signal has not fired yet; an asynchronous observer would block here.
    Pending,
    /// The single unset-to-fired transition, seen by this receiver for the
    /// first time.
    Transition,
    /// The receiver had already seen the transition (or subscribed after it).
    AlreadyFired,
}

impl ShutdownSignal {
    /// The signal has fired.
    pub closed spec fn spec_fired(self) -> bool {
        self.fired
    }

    /// A fresh, unfired signal.
    pub fn new() -> (s: Self)
        ensures
            !s.spec_fired(),
    {
        ShutdownSignal { fired: false }
    }

    /// Fire the signal. Redundant fires are accepted and leave the signal
    /// exactly as one fire does.
    pub fn fire(&mut self)
        ensures
            final(self).spec_fired(),
            *final(self) == spec_fired_signal(),
    {
        self.fired = true;
    }

    /// Whether the signal has fired, as the sender side sees it.
    pub fn is_fired(&self) -> (r: bool)
        ensures
            r == self.spec_fired(),
    {
        self.fired
    }
}

/// The one state a signal can be in once fired, however many times it was
/// fired.
pub closed spec fn spec_fired_signal() -> ShutdownSignal {
    ShutdownSignal { fired: true }
}

/// Law: every fired signal is in the same state, so firing more than once
/// produces no observable change beyond the first fire.
pub proof fn lemma_fire_collapses(a: ShutdownSignal, b: ShutdownSignal)
    requires
        a.spec_fired(),
        b.spec_fired(),
    ensures
        a == b,
{
}

/// One observation step of a receiver: the next receiver state and what the
/// observation yields, given whether the signal has fired.
pub open spec fn spec_observe(caught_up: bool, fired: bool) -> (bool, Observation) {
    if !fired {
        (caught_up, Observation::Pending)
    } else if !caught_up {
        (true, Observation::Transition)
    } else {
        (true, Observation::AlreadyFired)
    }
}

/// How many of `n` consecutive observations of a fired signal yield
/// `Transition`, starting from a receiver that has (or has not) caught up.
pub open spec fn spec_transition_count(caught_up: bool, n: nat) -> nat
    decreases n,
{
    if n == 0 {
        0
    } else {
        let (next, o) = spec_observe(caught_up, true);
        (if o is Transition { 1nat } else { 0nat }) + spec_transition_count(next, (n - 1) as nat)
    }
}

impl ShutdownReceiver {
    /// The receiver has already seen the transition (or subscribed after it).
    pub closed spec fn spec_caught_up(self) -> bool {
        self.caught_up
    }

    /// Subscribe to the signal. A receiver created after the fire starts
    /// caught up: it will never see the transition, only "already fired".
    pub fn subscribe(signal: &ShutdownSignal) -> (r: Self)
        ensures
            r.spec_caught_up() == signal.spec_fired(),
    {
        ShutdownReceiver { caught_up: signal.is_fired() }
    }

    /// Observe the signal once.
    pub fn observe(&mut self, signal: &ShutdownSignal) -> (o: Observation)
        ensures
            (final(self).spec_caught_up(), o)
                == spec_observe(old(self).spec_caught_up(), signal.spec_fired()),
    {
        if !signal.is_fired() {
            Observation::Pending
        } else if !self.caught_up {
            self.caught_up = true;
            Observation::Transition
        } else {
            Observation::AlreadyFired
        }
    }
}

/// Law: against a fired signal, a receiver that has not yet caught up sees
/// exactly one transition over any positive number of observations, and a
/// receiver that has caught up (for instance one subscribed after the fire)
/// never sees one.
pub proof fn lemma_single_transition(caught_up: bool, n: nat)
    ensures
        caught_up ==> spec_transition_count(caught_up, n) == 0,
        !caught_up && n > 0 ==> spec_transition_count(caught_up, n) == 1,
    decreases n,
{
    if n > 0 {
        lemma_single_transition(true, (n - 1) as nat);
    }
}

} // verus!
