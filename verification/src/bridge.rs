//! The blocking-wait bridge: one blocking wait at a time, one wake each.
//!
//! A call that blocks its thread until an external subsystem changes is
//! run on a dedicated worker. This state machine decides, on every poll
//! of the cooperative scheduler, whether to spawn such a worker, to keep
//! waiting, or to deliver the completed wait as a single tick and re-arm.
//! The runtime around it performs the decided action: it spawns the
//! worker, and the worker sets any shared staleness flag *before* waking
//! the scheduler, so the waking poll observes fresh state.

use vstd::prelude::*;

verus! {

/// Whether a worker performing the blocking wait is outstanding.
#[derive(Clone, Copy, PartialEq, Eq, Structural, Debug)]
pub enum BridgeState {
    /// No worker is running; the next poll arms one.
    Idle,
    /// Exactly one worker is running the blocking wait.
    Waiting,
}

/// The action a poll of the bridge decides on.
#[derive(Clone, Copy, PartialEq, Eq, Structural, Debug)]
pub enum BridgePoll {
    /// Spawn one worker for the blocking wait, then report "not ready".
    Spawn,
    /// A worker is still waiting: report "not ready", spawn nothing.
    Pending,
    /// The wait completed: deliver exactly one tick and re-arm on the
    /// next poll.
    Ready,
}

/// What one poll does, given whether the outstanding worker (if any)
/// has finished. This is the bridge's entire behaviour.
pub open spec fn bridge_step(s: BridgeState, worker_finished: bool) -> (BridgeState, BridgePoll) {
    match s {
        BridgeState::Idle => (BridgeState::Waiting, BridgePoll::Spawn),
        BridgeState::Waiting => if worker_finished {
            (BridgeState::Idle, BridgePoll::Ready)
        } else {
            (BridgeState::Waiting, BridgePoll::Pending)
        },
    }
}

/// Bridge between one blocking external wait and the cooperative
/// scheduler.
#[derive(Clone, Copy, PartialEq, Eq, Structural, Debug)]
pub struct Bridge {
    pub state: BridgeState,
}

impl Bridge {
    pub fn new() -> (r: Bridge)
        ensures
            r.state == BridgeState::Idle,
    {
        Bridge { state: BridgeState::Idle }
    }

    /// One poll. `worker_finished` reports whether the outstanding
    /// worker has completed its blocking wait; it is ignored when no
    /// worker is outstanding.
    pub fn poll(&mut self, worker_finished: bool) -> (r: BridgePoll)
        ensures
            (final(self).state, r) == bridge_step(old(self).state, worker_finished),
    {
        match self.state {
            BridgeState::Idle => {
                self.state = BridgeState::Waiting;
                BridgePoll::Spawn
            },
            BridgeState::Waiting => {
                if worker_finished {
                    self.state = BridgeState::Idle;
                    BridgePoll::Ready
                } else {
                    BridgePoll::Pending
                }
            },
        }
    }
}

/// The poll results of a run of the bridge from state `s`, one poll per
/// entry of `finished`.
pub open spec fn bridge_run(s: BridgeState, finished: Seq<bool>) -> Seq<BridgePoll>
    decreases finished.len(),
{
    if finished.len() == 0 {
        seq![]
    } else {
        let (s2, r) = bridge_step(s, finished[0]);
        seq![r] + bridge_run(s2, finished.drop_first())
    }
}

/// Law: polling is idempotent while the wait is outstanding. However
/// often a bridge with a running, unfinished worker is re-polled, every
/// poll reports "not ready", no additional worker is spawned, and the
/// single worker stays outstanding.
pub proof fn lemma_bridge_poll_idempotent(finished: Seq<bool>)
    requires
        forall|i: int| 0 <= i < finished.len() ==> !finished[i],
    ensures
        bridge_run(BridgeState::Waiting, finished) == Seq::new(
            finished.len(),
            |i: int| BridgePoll::Pending,
        ),
    decreases finished.len(),
{
    if finished.len() > 0 {
        assert(forall|i: int|
            0 <= i < finished.drop_first().len() ==> !finished.drop_first()[i]);
        lemma_bridge_poll_idempotent(finished.drop_first());
        assert(bridge_run(BridgeState::Waiting, finished) =~= Seq::new(
            finished.len(),
            |i: int| BridgePoll::Pending,
        ));
    } else {
        assert(bridge_run(BridgeState::Waiting, finished) =~= Seq::new(
            finished.len(),
            |i: int| BridgePoll::Pending,
        ));
    }
}

/// Law: one completion yields exactly one tick and exactly one re-arm.
/// When the worker finishes, the next poll delivers "ready" once; the
/// poll after that spawns exactly one fresh worker; and every further
/// poll while that worker runs spawns nothing.
pub proof fn lemma_bridge_single_completion(finished: Seq<bool>)
    requires
        finished.len() >= 2,
        finished[0],
        forall|i: int| 1 <= i < finished.len() ==> !finished[i],
    ensures
        ({
            let run = bridge_run(BridgeState::Waiting, finished);
            &&& run.len() == finished.len()
            &&& run[0] == BridgePoll::Ready
            &&& run[1] == BridgePoll::Spawn
            &&& forall|i: int| 2 <= i < run.len() ==> run[i] == BridgePoll::Pending
        }),
{
    lemma_bridge_run_len(BridgeState::Waiting, finished);
    let after_ready = finished.drop_first();
    let after_spawn = after_ready.drop_first();
    assert(forall|i: int|
        0 <= i < after_spawn.len() ==> !#[trigger] after_spawn[i] && !after_ready[i]);
    lemma_bridge_poll_idempotent(after_spawn);
    let run = bridge_run(BridgeState::Waiting, finished);
    let tail = bridge_run(BridgeState::Waiting, after_spawn);
    assert(run == seq![BridgePoll::Ready] + bridge_run(BridgeState::Idle, after_ready));
    assert(bridge_run(BridgeState::Idle, after_ready) == seq![BridgePoll::Spawn] + tail);
    lemma_bridge_run_len(BridgeState::Waiting, after_spawn);
    assert(forall|i: int| 2 <= i < run.len() ==> run[i] == tail[i - 2]);
}

pub proof fn lemma_bridge_run_len(s: BridgeState, finished: Seq<bool>)
    ensures
        bridge_run(s, finished).len() == finished.len(),
    decreases finished.len(),
{
    if finished.len() > 0 {
        let (s2, _) = bridge_step(s, finished[0]);
        lemma_bridge_run_len(s2, finished.drop_first());
    }
}

} // verus!
