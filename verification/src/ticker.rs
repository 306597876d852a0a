//! The adaptive ticker: a self-realigning periodic timer.
//!
//! The ticker holds one pending deadline. Each poll at instant `now`
//! either fires (when the deadline has passed) or leaves the state
//! untouched. On a fire the caller supplies the duration function's
//! output evaluated at that instant, and the next deadline becomes
//! `now + duration` — relative to the actual wake-up, not to the missed
//! deadline, so a delayed wake never compounds into accumulated drift.
//!
//! Instants and durations are nanosecond counts on a single monotonic
//! clock, supplied by the caller.

use vstd::prelude::*;

verus! {

/// State of an adaptive ticker: the single pending deadline, as a
/// nanosecond instant.
#[derive(Clone, Copy, PartialEq, Eq, Structural, Debug)]
pub struct Ticker {
    pub deadline: u64,
}

/// The deadline an adaptive ticker arms after firing at instant `now`
/// with a freshly evaluated duration: always relative to `now` itself.
pub open spec fn rearmed_deadline(now: int, duration: int) -> int {
    now + duration
}

impl Ticker {
    /// A ticker whose first fire is due `first_delay` after `now`.
    /// A zero delay makes the very next poll fire immediately; this is
    /// how a non-positive computed duration (clock skew) is handled.
    pub fn new(now: u64, first_delay: u64) -> (r: Ticker)
        requires
            now + first_delay <= u64::MAX,
        ensures
            r.deadline == rearmed_deadline(now as int, first_delay as int),
    {
        Ticker { deadline: now + first_delay }
    }

    /// One poll at instant `now`. `next_delay` is the duration
    /// function's output evaluated at this instant by the caller; it is
    /// consulted only when the ticker fires. Fires exactly when the
    /// pending deadline has been reached, and then re-arms relative to
    /// `now`.
    pub fn poll(&mut self, now: u64, next_delay: u64) -> (fired: bool)
        requires
            now + next_delay <= u64::MAX,
        ensures
            fired == (now >= old(self).deadline),
            fired ==> final(self).deadline == rearmed_deadline(now as int, next_delay as int),
            !fired ==> *final(self) == *old(self),
    {
        if now >= self.deadline {
            self.deadline = now + next_delay;
            true
        } else {
            false
        }
    }
}

/// The fire instants of a promptly polled adaptive ticker: the run
/// starts with a fire at `t0`, and after each fire the ticker is
/// re-armed with the corresponding entry of `durations`, then polled
/// exactly when that deadline is reached. The result has one entry per
/// fire, `durations.len() + 1` in all.
pub open spec fn fire_times(t0: int, durations: Seq<int>) -> Seq<int>
    decreases durations.len(),
{
    if durations.len() == 0 {
        seq![t0]
    } else {
        let prefix = fire_times(t0, durations.drop_last());
        prefix.push(rearmed_deadline(prefix.last(), durations.last()))
    }
}

pub proof fn lemma_fire_times_len(t0: int, durations: Seq<int>)
    ensures
        fire_times(t0, durations).len() == durations.len() + 1,
    decreases durations.len(),
{
    if durations.len() > 0 {
        lemma_fire_times_len(t0, durations.drop_last());
    }
}

proof fn lemma_fire_times_prefix(t0: int, durations: Seq<int>, i: int)
    requires
        durations.len() > 0,
        0 <= i < fire_times(t0, durations.drop_last()).len(),
    ensures
        fire_times(t0, durations)[i] == fire_times(t0, durations.drop_last())[i],
{
    lemma_fire_times_len(t0, durations.drop_last());
    let prefix = fire_times(t0, durations.drop_last());
    assert(fire_times(t0, durations) == prefix.push(
        rearmed_deadline(prefix.last(), durations.last()),
    ));
}

/// Law: for any sequence of duration-function outputs, consecutive fire
/// instants of a promptly polled adaptive ticker are spaced by exactly
/// the duration supplied at the earlier fire.
pub proof fn lemma_ticker_fire_spacing(t0: int, durations: Seq<int>, n: int)
    requires
        0 <= n < durations.len(),
    ensures
        fire_times(t0, durations)[n + 1] - fire_times(t0, durations)[n] == durations[n],
    decreases durations.len(),
{
    lemma_fire_times_len(t0, durations.drop_last());
    lemma_fire_times_len(t0, durations);
    if n + 1 < durations.len() {
        lemma_fire_times_prefix(t0, durations, n);
        lemma_fire_times_prefix(t0, durations, n + 1);
        lemma_ticker_fire_spacing(t0, durations.drop_last(), n);
    } else {
        let prefix = fire_times(t0, durations.drop_last());
        assert(fire_times(t0, durations)[n + 1] == prefix.last() + durations.last());
        assert(prefix.last() == prefix[n]);
        lemma_fire_times_prefix(t0, durations, n);
    }
}

/// Law: with a constant duration function, the n-th fire lands exactly
/// at `t0 + n * d` — re-arming relative to the wake-up instant does not
/// accumulate drift across any number of fires.
pub proof fn lemma_ticker_no_drift(t0: int, durations: Seq<int>, d: int, n: int)
    requires
        forall|i: int| 0 <= i < durations.len() ==> durations[i] == d,
        0 <= n <= durations.len(),
    ensures
        fire_times(t0, durations)[n] == t0 + n * d,
    decreases durations.len(),
{
    lemma_fire_times_len(t0, durations);
    if durations.len() == 0 {
        assert(n * d == 0) by (nonlinear_arith)
            requires
                n == 0,
        ;
    } else if n == durations.len() {
        let prefix = fire_times(t0, durations.drop_last());
        lemma_fire_times_len(t0, durations.drop_last());
        assert(fire_times(t0, durations) == prefix.push(
            rearmed_deadline(prefix.last(), durations.last()),
        ));
        assert(forall|i: int|
            0 <= i < durations.drop_last().len() ==> durations.drop_last()[i] == durations[i]);
        lemma_ticker_no_drift(t0, durations.drop_last(), d, n - 1);
        assert(prefix.last() == prefix[n - 1]);
        assert(fire_times(t0, durations)[n] == prefix.last() + durations.last());
        assert(durations.last() == d);
        assert((n - 1) * d + d == n * d) by (nonlinear_arith);
    } else {
        assert(forall|i: int|
            0 <= i < durations.drop_last().len() ==> durations.drop_last()[i] == durations[i]);
        lemma_fire_times_prefix(t0, durations, n);
        lemma_ticker_no_drift(t0, durations.drop_last(), d, n);
    }
}

} // verus!
