use vstd::prelude::*;
use crate::negotiation::IceCandidate;

verus! {

/// How many locally gathered candidates wait at most to be sent.
pub const CANDIDATE_QUEUE_CAPACITY: usize = 32;

/// The queue after offering `c` to `q`: appended while there is room,
/// dropped when the queue is full.
pub open spec fn offered(q: Seq<IceCandidate>, c: IceCandidate) -> Seq<IceCandidate> {
    if q.len() < CANDIDATE_QUEUE_CAPACITY {
        q.push(c)
    } else {
        q
    }
}

/// The queue after offering each of `cs` in turn.
pub open spec fn offered_all(q: Seq<IceCandidate>, cs: Seq<IceCandidate>) -> Seq<IceCandidate>
    decreases cs.len(),
{
    if cs.len() == 0 {
        q
    } else {
        offered(offered_all(q, cs.drop_last()), cs.last())
    }
}

/// A bounded first-in first-out queue of local ICE candidates that never
/// blocks: a candidate offered while the queue is full is dropped.
pub struct CandidateQueue {
    items: Vec<IceCandidate>,
}

impl View for CandidateQueue {
    type V = Seq<IceCandidate>;

    closed spec fn view(&self) -> Seq<IceCandidate> {
        self.items@
    }
}

impl CandidateQueue {
    /// The queue never holds more than its capacity.
    pub closed spec fn wf(&self) -> bool {
        self.items@.len() <= CANDIDATE_QUEUE_CAPACITY
    }

    /// An empty queue.
    pub fn new() -> (r: CandidateQueue)
        ensures
            r.wf(),
            r@ == Seq::<IceCandidate>::empty(),
    {
        CandidateQueue { items: Vec::new() }
    }

    /// Number of candidates waiting.
    pub fn len(&self) -> (r: usize)
        ensures
            r == self@.len(),
    {
        self.items.len()
    }

    /// Whether no candidate is waiting.
    pub fn is_empty(&self) -> (r: bool)
        ensures
            r == (self@.len() == 0),
    {
        self.items.len() == 0
    }

    /// Offers a candidate; returns whether it was kept. A full queue drops it
    /// and stays as it was.
    pub fn try_push(&mut self, c: IceCandidate) -> (r: bool)
        requires
            old(self).wf(),
        ensures
            final(self).wf(),
            r == (old(self)@.len() < CANDIDATE_QUEUE_CAPACITY),
            final(self)@ == offered(old(self)@, c),
    {
        if self.items.len() < CANDIDATE_QUEUE_CAPACITY {
            self.items.push(c);
            true
        } else {
            false
        }
    }

    /// Takes the oldest waiting candidate, if any.
    pub fn pop(&mut self) -> (r: Option<IceCandidate>)
        requires
            old(self).wf(),
        ensures
            final(self).wf(),
            old(self)@.len() == 0 ==> r is None && final(self)@ == old(self)@,
            old(self)@.len() > 0 ==> r == Some(old(self)@[0]) && final(self)@ == old(self)@.drop_first(),
    {
        if self.items.len() == 0 {
            None
        } else {
            let c = self.items.remove(0);
            proof {
                assert(self.items@ =~= old(self)@.drop_first());
            }
            Some(c)
        }
    }
}

/// Offering candidates one by one to a queue keeps exactly the first ones
/// that fit, in order, and drops the rest: from an empty queue, offering any
/// number of candidates leaves the first `CANDIDATE_QUEUE_CAPACITY` of them.
pub proof fn lemma_offered_all(q: Seq<IceCandidate>, cs: Seq<IceCandidate>)
    requires
        q.len() <= CANDIDATE_QUEUE_CAPACITY,
    ensures
        offered_all(q, cs) == (q + cs).take(
            if q.len() + cs.len() <= CANDIDATE_QUEUE_CAPACITY { (q.len() + cs.len()) as int } else { CANDIDATE_QUEUE_CAPACITY as int },
        ),
    decreases cs.len(),
{
    if cs.len() == 0 {
        assert((q + cs).take(q.len() as int) =~= q);
    } else {
        let front = cs.drop_last();
        lemma_offered_all(q, front);
        let p = offered_all(q, front);
        if q.len() + cs.len() <= CANDIDATE_QUEUE_CAPACITY {
            assert(p =~= q + front);
            assert((q + cs).take((q.len() + cs.len()) as int) =~= (q + front).push(cs.last()));
        } else {
            assert((q + cs).take(CANDIDATE_QUEUE_CAPACITY as int) =~= (q + front).take(CANDIDATE_QUEUE_CAPACITY as int));
            if q.len() + front.len() <= CANDIDATE_QUEUE_CAPACITY {
                assert(p =~= q + front);
                assert((q + front).take((q.len() + front.len()) as int) =~= q + front);
            }
        }
    }
}

/// Once the queue holds `CANDIDATE_QUEUE_CAPACITY` candidates, a further
/// offer is dropped and every waiting candidate is kept, in order.
pub proof fn lemma_full_queue_drops(q: Seq<IceCandidate>, c: IceCandidate)
    requires
        q.len() == CANDIDATE_QUEUE_CAPACITY,
    ensures
        offered(q, c) == q,
{
}

} // verus!
