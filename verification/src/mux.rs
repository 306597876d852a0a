//! The stream multiplexer: several tick sources, one output stream.
//!
//! A widget may react to more than one independent trigger — an
//! external event and a local sub-tick clock, say. Each source is
//! identified by a stable key. Whenever a source becomes ready the
//! runtime records it here; the consumer then drains combined ticks one
//! at a time, in the order the sources became ready. No readiness event
//! is ever dropped or coalesced: each one yields exactly one downstream
//! tick.

use vstd::prelude::*;

verus! {

/// Pending combined ticks, oldest first: one entry per readiness event
/// not yet delivered, holding the ready source's key.
pub struct Mux {
    pub pending: Vec<u64>,
}

/// What recording a readiness event does to the pending queue.
pub open spec fn mux_ready(pending: Seq<u64>, key: u64) -> Seq<u64> {
    pending.push(key)
}

/// What one delivery poll does: the queue it leaves, and the tick it
/// delivers, if any.
pub open spec fn mux_deliver(pending: Seq<u64>) -> (Seq<u64>, Option<u64>) {
    if pending.len() == 0 {
        (pending, None)
    } else {
        (pending.drop_first(), Some(pending[0]))
    }
}

impl Mux {
    pub fn new() -> (r: Mux)
        ensures
            r.pending@ == Seq::<u64>::empty(),
    {
        Mux { pending: Vec::new() }
    }

    /// Record that the source with this key became ready. Called once
    /// per readiness event.
    pub fn push_ready(&mut self, key: u64)
        ensures
            final(self).pending@ == mux_ready(old(self).pending@, key),
    {
        self.pending.push(key);
    }

    /// Deliver the next combined tick: the key of the earliest source
    /// readiness not yet delivered, or nothing when no source is ready.
    pub fn poll_next(&mut self) -> (r: Option<u64>)
        ensures
            (final(self).pending@, r) == mux_deliver(old(self).pending@),
    {
        if self.pending.len() == 0 {
            None
        } else {
            Some(self.pending.remove(0))
        }
    }
}

/// Law: merging two sources that each fire once yields exactly two
/// downstream ticks, whatever the interleaving. From an empty
/// multiplexer, after one readiness event from each of two sources, in
/// either order, the first two delivery polls yield one tick per source
/// — in readiness order — and the third yields nothing.
pub proof fn lemma_mux_two_sources(first: u64, second: u64)
    ensures
        ({
            let q0 = mux_ready(mux_ready(Seq::<u64>::empty(), first), second);
            let (q1, t1) = mux_deliver(q0);
            let (q2, t2) = mux_deliver(q1);
            let (q3, t3) = mux_deliver(q2);
            &&& t1 == Some(first)
            &&& t2 == Some(second)
            &&& t3 == None::<u64>
        }),
{
    let q0 = mux_ready(mux_ready(Seq::<u64>::empty(), first), second);
    assert(q0 =~= seq![first, second]);
    let (q1, t1) = mux_deliver(q0);
    assert(q1 =~= seq![second]);
    let (q2, t2) = mux_deliver(q1);
    assert(q2 =~= Seq::<u64>::empty());
}

/// Law: no readiness event is dropped or coalesced. Ticks delivered so
/// far plus ticks still pending always account for every event exactly
/// once: a readiness event grows the pending queue by exactly its key,
/// and a delivery removes exactly the oldest entry.
pub proof fn lemma_mux_conserves_events(pending: Seq<u64>, key: u64)
    ensures
        mux_ready(pending, key).len() == pending.len() + 1,
        mux_ready(pending, key).last() == key,
        forall|i: int| 0 <= i < pending.len() ==> mux_ready(pending, key)[i] == pending[i],
        pending.len() > 0 ==> ({
            let (q, t) = mux_deliver(pending);
            &&& q.len() == pending.len() - 1
            &&& t == Some(pending.first())
            &&& forall|i: int| 0 <= i < q.len() ==> q[i] == pending[i + 1]
        }),
{
}

} // verus!
