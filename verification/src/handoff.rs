//! The bounded queue between a broker's delivery callback and the task that
//! forwards.
//!
//! A delivery callback must not wait on the network, so it leaves each payload
//! here. The queue holds at most [`HANDOFF_CAPACITY`] payloads. One that does
//! not fit is given back to the producer, which waits for a free slot and
//! offers it again: the queue never drops a payload and never reorders two.

use std::collections::VecDeque;
use vstd::prelude::*;

verus! {

/// How many payloads may wait in a [`HandoffQueue`].
pub const HANDOFF_CAPACITY: usize = 100;

/// Payloads waiting to be forwarded, oldest first.
#[derive(Debug)]
pub struct HandoffQueue {
    waiting: VecDeque<Vec<u8>>,
}

/// The queue that results from offering `payload` to `queue`, and the payload
/// given back where the queue is full.
pub open spec fn offered(queue: Seq<Seq<u8>>, payload: Seq<u8>) -> (
    Seq<Seq<u8>>,
    Option<Seq<u8>>,
) {
    if queue.len() < HANDOFF_CAPACITY {
        (queue.push(payload), None)
    } else {
        (queue, Some(payload))
    }
}

/// The queue that results from taking the oldest payload of `queue`, and that
/// payload where there is one.
pub open spec fn taken(queue: Seq<Seq<u8>>) -> (Seq<Seq<u8>>, Option<Seq<u8>>) {
    if queue.len() > 0 {
        (queue.subrange(1, queue.len() as int), Some(queue[0]))
    } else {
        (queue, None)
    }
}

impl View for HandoffQueue {
    type V = Seq<Seq<u8>>;

    closed spec fn view(&self) -> Seq<Seq<u8>> {
        self.waiting@.map_values(|payload: Vec<u8>| payload@)
    }
}

impl HandoffQueue {
    #[verifier::type_invariant]
    spec fn within_capacity(&self) -> bool {
        self.waiting@.len() <= HANDOFF_CAPACITY
    }

    /// An empty queue.
    pub fn new() -> (queue: HandoffQueue)
        ensures
            queue@ == Seq::<Seq<u8>>::empty(),
    {
        HandoffQueue { waiting: VecDeque::new() }
    }

    /// How many payloads are waiting.
    pub fn len(&self) -> (count: usize)
        ensures
            count == self@.len(),
            count <= HANDOFF_CAPACITY,
    {
        proof {
            use_type_invariant(self);
        }
        self.waiting.len()
    }

    /// Whether no payload is waiting.
    pub fn is_empty(&self) -> (empty: bool)
        ensures
            empty == (self@.len() == 0),
    {
        self.waiting.len() == 0
    }

    /// Whether the next offer would be given back.
    pub fn is_full(&self) -> (full: bool)
        ensures
            full == (self@.len() >= HANDOFF_CAPACITY),
            full == offered(self@, Seq::empty()).1.is_some(),
    {
        self.waiting.len() >= HANDOFF_CAPACITY
    }

    /// Puts `payload` at the end of the queue, or gives it back unchanged
    /// where [`HANDOFF_CAPACITY`] payloads are waiting already.
    pub fn offer(&mut self, payload: Vec<u8>) -> (refused: Result<(), Vec<u8>>)
        ensures
            final(self)@ == offered(old(self)@, payload@).0,
            refused is Err <==> old(self)@.len() >= HANDOFF_CAPACITY,
            refused matches Err(back) ==> back@ == payload@,
    {
        proof {
            use_type_invariant(&*self);
        }
        if self.waiting.len() < HANDOFF_CAPACITY {
            // The queue changes outside `self`, which stays within capacity
            // at every moment.
            let mut waiting: VecDeque<Vec<u8>> = VecDeque::new();
            std::mem::swap(&mut self.waiting, &mut waiting);
            waiting.push_back(payload);
            std::mem::swap(&mut self.waiting, &mut waiting);
            Ok(())
        } else {
            Err(payload)
        }
    }

    /// Takes the payload that has waited longest, if any is waiting.
    pub fn take(&mut self) -> (next: Option<Vec<u8>>)
        ensures
            final(self)@ == taken(old(self)@).0,
            next is Some <==> old(self)@.len() > 0,
            next matches Some(payload) ==> payload@ == old(self)@[0],
    {
        proof {
            use_type_invariant(&*self);
        }
        let mut waiting: VecDeque<Vec<u8>> = VecDeque::new();
        std::mem::swap(&mut self.waiting, &mut waiting);
        let next = waiting.pop_front();
        std::mem::swap(&mut self.waiting, &mut waiting);
        next
    }
}

/// Backpressure: a full queue takes nothing and loses nothing. The payload
/// offered comes back as it was and the queue stays as it is; once one payload
/// has been taken, the same offer is accepted and stands last.
pub proof fn full_queue_holds_back(queue: Seq<Seq<u8>>, payload: Seq<u8>)
    requires
        queue.len() == HANDOFF_CAPACITY,
    ensures
        offered(queue, payload) == (queue, Some(payload)),
        taken(queue).1 == Some(queue[0]),
        offered(taken(queue).0, payload) == (
            queue.subrange(1, queue.len() as int).push(payload),
            None::<Seq<u8>>,
        ),
{
}

/// Nothing is lost and nothing is invented: what waits after an offer,
/// followed by what was given back, is what waited before followed by the
/// payload offered; and what was taken, followed by what still waits, is what
/// waited before.
pub proof fn queue_conserves_payloads(queue: Seq<Seq<u8>>, payload: Seq<u8>)
    ensures
        offered(queue, payload).0 + (match offered(queue, payload).1 {
            Some(back) => seq![back],
            None => Seq::empty(),
        }) == queue.push(payload),
        (match taken(queue).1 {
            Some(first) => seq![first],
            None => Seq::empty(),
        }) + taken(queue).0 == queue,
        offered(queue, payload).0.len() <= if queue.len() <= HANDOFF_CAPACITY {
            HANDOFF_CAPACITY as int
        } else {
            queue.len() as int
        },
{
    assert(offered(queue, payload).0 + (match offered(queue, payload).1 {
        Some(back) => seq![back],
        None => Seq::empty(),
    }) =~= queue.push(payload));
    assert((match taken(queue).1 {
        Some(first) => seq![first],
        None => Seq::empty(),
    }) + taken(queue).0 =~= queue);
}

} // verus!
