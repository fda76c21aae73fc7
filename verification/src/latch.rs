//! The shared state guard: a single boolean latch, `emitter_started`, that
//! arbitrates activation of the emission loop. Activation is a one-way,
//! single-shot operation — the first request wins the latch, every later
//! request is rejected with the `Emitter already started` error, and nothing
//! ever resets the latch within a process lifetime.
//!
//! The host keeps one `AppData` value in process-wide managed state behind a
//! mutual-exclusion lock, so concurrent activation requests are served in
//! some serial order; the laws at the bottom of this module speak about such
//! serial orders.

use vstd::prelude::*;

verus! {

/// The message handed back to a caller whose activation request lost the
/// latch.
pub open spec fn already_started_message() -> Seq<char> {
    "Emitter already started"@
}

/// Process-wide application state: the activation latch for the emission
/// loop. Created once at application startup with the latch unset. The raw
/// flag is deliberately not exposed — activation goes through
/// [`AppData::try_activate`] alone, so nothing can ever reset the latch
/// within a process lifetime.
pub struct AppData {
    /// Whether the emission loop has already been spawned. Once `true`,
    /// never `false` again: there is no stop or restart path.
    emitter_started: bool,
}

/// What one activation request does to the latch: whether it succeeds, and
/// the latch value afterwards. A request succeeds exactly on an unset
/// latch, and the latch is set afterwards in either case.
pub open spec fn latch_step(started: bool) -> (bool, bool) {
    (!started, true)
}

impl AppData {
    /// Whether the emission loop has been started.
    pub closed spec fn started(self) -> bool {
        self.emitter_started
    }

    /// Fresh application state, as installed at boot: the loop not yet
    /// started.
    pub fn new() -> (s: Self)
        ensures
            !s.started(),
    {
        AppData { emitter_started: false }
    }

    /// Whether the emission loop has been started.
    pub fn is_started(&self) -> (r: bool)
        ensures
            r == self.started(),
    {
        self.emitter_started
    }

    /// The single-shot activation check-and-set. Succeeds exactly when the
    /// emission loop has not been started yet, and leaves the latch set
    /// either way; a rejected caller receives the `Emitter already started`
    /// error and nothing else changes.
    pub fn try_activate(&mut self) -> (r: Result<(), String>)
        ensures
            r is Ok == latch_step(old(self).started()).0,
            final(self).started() == latch_step(old(self).started()).1,
            r is Ok <==> !old(self).started(),
            final(self).started(),
            r is Err ==> (r matches Err(m) && m@ == already_started_message()),
    {
        if self.emitter_started {
            return Err(String::from_str("Emitter already started"));
        }
        self.emitter_started = true;
        Ok(())
    }
}

/// The latch value after `n` activation requests have been served in some
/// serial order against fresh application state: unset only while no
/// request has run.
pub open spec fn latch_after(n: nat) -> bool
    decreases n,
{
    if n == 0 {
        false
    } else {
        latch_step(latch_after((n - 1) as nat)).1
    }
}

/// The outcome of each of `n` activation requests served in some serial
/// order against fresh application state, in service order: `true` for a
/// request that won the latch.
pub open spec fn activation_outcomes(n: nat) -> Seq<bool>
    decreases n,
{
    if n == 0 {
        Seq::empty()
    } else {
        activation_outcomes((n - 1) as nat).push(latch_step(latch_after((n - 1) as nat)).0)
    }
}

/// How many of a sequence of request outcomes were successes.
pub open spec fn count_successes(s: Seq<bool>) -> nat
    decreases s.len(),
{
    if s.len() == 0 {
        0
    } else {
        count_successes(s.drop_last()) + if s.last() {
            1nat
        } else {
            0nat
        }
    }
}

/// There is one outcome per request served.
pub proof fn lemma_outcomes_len(n: nat)
    ensures
        activation_outcomes(n).len() == n,
    decreases n,
{
    if n > 0 {
        lemma_outcomes_len((n - 1) as nat);
    }
}

/// Once any request has been served, the latch is set.
pub proof fn lemma_latch_set_after_first(n: nat)
    requires
        n >= 1,
    ensures
        latch_after(n),
    decreases n,
{
    if n > 1 {
        lemma_latch_set_after_first((n - 1) as nat);
    }
}

/// Latch correctness (mutual exclusion): of any `n >= 1` activation
/// requests served in some serial order against fresh application state —
/// in particular of `n >= 2` concurrent requests, which the state lock
/// serializes in an arbitrary order — exactly one succeeds, namely the one
/// served first, and every other one is rejected.
pub proof fn lemma_exactly_one_activation_succeeds(n: nat)
    requires
        n >= 1,
    ensures
        count_successes(activation_outcomes(n)) == 1,
        activation_outcomes(n)[0],
        forall|i: int| 1 <= i < n ==> !activation_outcomes(n)[i],
    decreases n,
{
    lemma_outcomes_len(n);
    if n == 1 {
        assert(activation_outcomes(1) =~= Seq::empty().push(true));
        assert(count_successes(activation_outcomes(1)) == count_successes(
            activation_outcomes(1).drop_last(),
        ) + 1);
        assert(activation_outcomes(1).drop_last() =~= Seq::<bool>::empty());
    } else {
        lemma_exactly_one_activation_succeeds((n - 1) as nat);
        lemma_outcomes_len((n - 1) as nat);
        lemma_latch_set_after_first((n - 1) as nat);
        let prev = activation_outcomes((n - 1) as nat);
        assert(activation_outcomes(n) == prev.push(false));
        assert(activation_outcomes(n).drop_last() =~= prev);
        assert(count_successes(activation_outcomes(n)) == count_successes(prev));
        assert forall|i: int| 1 <= i < n implies !activation_outcomes(n)[i] by {
            if i < n - 1 {
                assert(activation_outcomes(n)[i] == prev[i]);
            } else {
                assert(activation_outcomes(n)[i] == false);
            }
        }
    }
}

/// Deterministic rejection of a back-to-back second request: when
/// activation is called twice in sequence on fresh application state, the
/// first call succeeds and the second fails.
pub proof fn lemma_second_activation_fails()
    ensures
        activation_outcomes(2) =~= seq![true, false],
{
    lemma_exactly_one_activation_succeeds(2);
    lemma_outcomes_len(2);
}

} // verus!
