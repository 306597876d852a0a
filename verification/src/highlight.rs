//! The highlight sub-scheduler: adaptive-rate resynchronization.
//!
//! The playback highlight advances by one character roughly every
//! `track length / rendered character count`, so its tick rate depends
//! on domain state and must be recomputed whenever the player changes.
//! This scheduler owns one blocking-wait bridge (watching the player
//! subsystem) and one adaptive ticker. A completed wait marks the state
//! stale; the next poll clears the flag, re-queries the player through
//! the runtime, recomputes the tick interval, and restarts the ticker.
//! Each ticker fire then yields one re-render tick. The runtime holds
//! this state under one lock; the worker's staleness write happens
//! before its wake, so the waking poll observes it.
//!
//! A paused track reports no elapsed time or length, so resynchronizing
//! skips the interval recomputation and the last-known cadence simply
//! continues: pausing does not freeze the highlight's advance, a known
//! limitation, not a bug.

use vstd::prelude::*;

use crate::bridge::{bridge_step, Bridge, BridgePoll, BridgeState};
use crate::mpd::PlayerStatus;
use crate::ticker::Ticker;
use crate::WidgetError;

verus! {

/// The coarse fallback tick interval used until the first
/// resynchronization: ten seconds, in nanoseconds.
pub const FALLBACK_INTERVAL_NS: u64 = 10_000_000_000;

/// State of one highlight sub-scheduler.
pub struct HighlightState {
    /// The bridge for the blocking "player changed" wait.
    pub bridge: Bridge,
    /// The adaptive ticker producing the re-render ticks.
    pub ticker: Ticker,
    /// The current tick interval, in nanoseconds.
    pub interval_ns: u64,
    /// Set by the completed wait, cleared by the poll that resyncs.
    pub stale: bool,
    /// Track length learned at the last resynchronization.
    pub song_length: Option<u64>,
    /// Elapsed playback learned at the last resynchronization.
    pub song_elapsed: Option<u64>,
}

impl HighlightState {
    /// A fresh scheduler at instant `now`: no worker armed yet, stale
    /// (so the first poll resynchronizes at once), at the fallback
    /// cadence, with the first tick due immediately — the first frame
    /// is produced eagerly, not one interval late.
    pub fn new(now: u64) -> (r: HighlightState)
        ensures
            r.bridge.state == BridgeState::Idle,
            r.stale == true,
            r.interval_ns == FALLBACK_INTERVAL_NS,
            r.ticker.deadline == now,
            r.song_length is None,
            r.song_elapsed is None,
    {
        HighlightState {
            bridge: Bridge::new(),
            ticker: Ticker::new(now, 0),
            interval_ns: FALLBACK_INTERVAL_NS,
            stale: true,
            song_length: None,
            song_elapsed: None,
        }
    }

    /// The completed blocking wait reports that the player changed.
    /// The runtime calls this from the worker — under the lock, before
    /// waking the scheduler — so the waking poll already sees the flag.
    pub fn mark_stale(&mut self)
        ensures
            *final(self) == (HighlightState { stale: true, ..*old(self) }),
    {
        self.stale = true;
    }

    /// One poll of the owned bridge: decides whether the runtime must
    /// spawn a fresh blocking wait, keep waiting, or re-arm after a
    /// completion. Never asks for a second worker while one runs.
    pub fn poll_bridge(&mut self, worker_finished: bool) -> (r: BridgePoll)
        ensures
            (final(self).bridge.state, r) == bridge_step(old(self).bridge.state, worker_finished),
            *final(self) == (HighlightState { bridge: final(self).bridge, ..*old(self) }),
    {
        self.bridge.poll(worker_finished)
    }

    /// Atomically reads and clears the staleness flag: the caller
    /// resynchronizes exactly when this returns true. Clearing in the
    /// same step keeps a completion from being consumed twice; the
    /// runtime's lock keeps one from being lost between check and
    /// clear.
    pub fn take_stale(&mut self) -> (was_stale: bool)
        ensures
            was_stale == old(self).stale,
            *final(self) == (HighlightState { stale: false, ..*old(self) }),
    {
        let was = self.stale;
        self.stale = false;
        was
    }

    /// Resynchronize from a fresh player query. On success the playback
    /// knowledge is replaced and, when the track is playing with a
    /// known positive length and something is rendered, the tick
    /// interval becomes `track length / rendered character count`
    /// (floored, at least one nanosecond) and the ticker restarts with
    /// an immediate tick. A paused or empty track leaves the cadence as
    /// it was. A failed query changes nothing and surfaces the error as
    /// one failed item.
    pub fn resync(
        &mut self,
        now: u64,
        status: Result<PlayerStatus, WidgetError>,
        char_count: usize,
    ) -> (r: Result<(), WidgetError>)
        ensures
            status matches Err(e) ==> r matches Err(f) && f.message@ == e.message@ && *final(self)
                == *old(self),
            status matches Ok(st) ==> {
                &&& r is Ok
                &&& final(self).song_length == st.length_ns
                &&& final(self).song_elapsed == st.elapsed_ns
                &&& final(self).bridge == old(self).bridge
                &&& final(self).stale == old(self).stale
                &&& if recompute_active(st, char_count) {
                    &&& final(self).interval_ns == recomputed_interval(st, char_count)
                    &&& final(self).ticker.deadline == now
                } else {
                    &&& final(self).interval_ns == old(self).interval_ns
                    &&& final(self).ticker == old(self).ticker
                }
            },
    {
        let st = match status {
            Ok(s) => s,
            Err(e) => {
                return Err(e);
            },
        };
        self.song_length = st.length_ns;
        self.song_elapsed = st.elapsed_ns;
        if st.length_ns.is_some() && st.elapsed_ns.is_some() && char_count > 0 {
            let length = st.length_ns.unwrap();
            if length > 0 {
                let raw = length / (char_count as u64);
                self.interval_ns = if raw == 0 {
                    1
                } else {
                    raw
                };
                self.ticker = Ticker::new(now, 0);
            }
        }
        Ok(())
    }

    /// One poll of the owned adaptive ticker at instant `now`: fires
    /// exactly when the pending deadline has been reached, each fire
    /// yielding one re-render tick, and re-arms one current interval
    /// after the actual wake-up.
    pub fn poll_tick(&mut self, now: u64) -> (fired: bool)
        requires
            now + old(self).interval_ns <= u64::MAX,
        ensures
            fired == (now >= old(self).ticker.deadline),
            fired ==> final(self).ticker.deadline == now + old(self).interval_ns,
            !fired ==> final(self).ticker == old(self).ticker,
            *final(self) == (HighlightState { ticker: final(self).ticker, ..*old(self) }),
    {
        let interval = self.interval_ns;
        self.ticker.poll(now, interval)
    }
}

/// Whether a resynchronization recomputes the cadence: the track is
/// playing (both length and elapsed known), its length is positive, and
/// the rendered string is not empty.
pub open spec fn recompute_active(st: PlayerStatus, char_count: usize) -> bool {
    &&& st.length_ns is Some
    &&& st.elapsed_ns is Some
    &&& st.length_ns->0 > 0
    &&& char_count > 0
}

/// The recomputed tick interval: one character's worth of track time,
/// clamped to at least one nanosecond.
pub open spec fn recomputed_interval(st: PlayerStatus, char_count: usize) -> int {
    let raw = st.length_ns->0 as int / char_count as int;
    if raw == 0 {
        1
    } else {
        raw
    }
}

} // verus!
