//! Bounded, ordered hand-off queues.
//!
//! Commands and notifications travel between the tasks only through these
//! FIFO queues.  A queue never drops or reorders an item; when it is full
//! the producer is told so and — under the block-until-space policy — simply
//! retries at its suspension point until the consumer has made room, so
//! backpressure propagates end-to-end and nothing is ever lost.

use vstd::prelude::*;

use crate::kinematics::TargetAngles;
use crate::messages::Message;

verus! {

/// Capacity of the motion queue (polar targets awaiting the controller).
pub const MOTION_QUEUE_CAPACITY: usize = 512;

/// Capacity of the transmission channel (messages awaiting the writer).
pub const TRANSMISSION_CHANNEL_CAPACITY: usize = 8;

/// What a producer facing a full queue is meant to do: suspend and retry
/// until space opens, or surface the rejection as an error.  The queue
/// itself always reports fullness through `try_enqueue`; the policy names
/// the contract the producer follows.
#[derive(Clone, Copy, PartialEq, Eq, Structural, Debug)]
pub enum OverflowPolicy {
    BlockUntilSpace,
    RejectWithError,
}

/// A bounded FIFO hand-off queue.  The view is the sequence of queued
/// items, oldest first.
pub struct BoundedQueue<T> {
    items: Vec<T>,
    capacity: usize,
    policy: OverflowPolicy,
}

impl<T> BoundedQueue<T> {
    /// The queued items, oldest first.
    pub closed spec fn view(self) -> Seq<T> {
        self.items@
    }

    /// The fixed capacity the queue was made with.
    pub closed spec fn spec_capacity(self) -> int {
        self.capacity as int
    }

    /// The overflow policy the queue was made with.
    pub closed spec fn spec_policy(self) -> OverflowPolicy {
        self.policy
    }

    /// A queue never holds more than its capacity.
    pub open spec fn wf(self) -> bool {
        self.view().len() <= self.spec_capacity()
    }

    /// An empty queue with the given capacity and overflow policy.
    pub fn new(capacity: usize, policy: OverflowPolicy) -> (q: BoundedQueue<T>)
        requires
            capacity >= 1,
        ensures
            q.wf(),
            q.view() == Seq::<T>::empty(),
            q.spec_capacity() == capacity,
            q.spec_policy() == policy,
    {
        BoundedQueue { items: Vec::new(), capacity, policy }
    }

    /// Number of queued items.
    pub fn len(&self) -> (n: usize)
        ensures
            n == self.view().len(),
    {
        self.items.len()
    }

    /// The fixed capacity.
    pub fn capacity(&self) -> (n: usize)
        ensures
            n == self.spec_capacity(),
    {
        self.capacity
    }

    /// The overflow policy.
    pub fn policy(&self) -> (p: OverflowPolicy)
        ensures
            p == self.spec_policy(),
    {
        self.policy
    }

    /// Appends an item at the tail, or hands it back unchanged when the
    /// queue is full so the producer can suspend and retry (or report an
    /// error, per its policy).
    pub fn try_enqueue(&mut self, item: T) -> (r: Result<(), T>)
        requires
            old(self).wf(),
        ensures
            final(self).wf(),
            final(self).spec_capacity() == old(self).spec_capacity(),
            final(self).spec_policy() == old(self).spec_policy(),
            old(self).view().len() < old(self).spec_capacity() ==> r is Ok && final(self).view()
                == old(self).view().push(item),
            old(self).view().len() == old(self).spec_capacity() ==> r == Result::<(), T>::Err(item)
                && final(self).view() == old(self).view(),
    {
        if self.items.len() < self.capacity {
            self.items.push(item);
            Ok(())
        } else {
            Err(item)
        }
    }

    /// Removes and returns the oldest item, or nothing when the queue is
    /// empty so the consumer can suspend and retry.
    pub fn try_dequeue(&mut self) -> (r: Option<T>)
        requires
            old(self).wf(),
        ensures
            final(self).wf(),
            final(self).spec_capacity() == old(self).spec_capacity(),
            final(self).spec_policy() == old(self).spec_policy(),
            old(self).view().len() == 0 ==> r is None && final(self).view() == old(self).view(),
            old(self).view().len() > 0 ==> r == Option::Some(old(self).view().first())
                && final(self).view() == old(self).view().drop_first(),
    {
        if self.items.len() == 0 {
            None
        } else {
            let item = self.items.remove(0);
            assert(final(self).items@ =~= old(self).items@.drop_first());
            Some(item)
        }
    }
}

/// The motion queue: polar targets from the command producer to the arm
/// controller, blocking backpressure, capacity 512.
pub fn motion_queue() -> (q: BoundedQueue<TargetAngles>)
    ensures
        q.wf(),
        q.view() == Seq::<TargetAngles>::empty(),
        q.spec_capacity() == MOTION_QUEUE_CAPACITY,
        q.spec_policy() == OverflowPolicy::BlockUntilSpace,
{
    BoundedQueue::new(MOTION_QUEUE_CAPACITY, OverflowPolicy::BlockUntilSpace)
}

/// The transmission channel: messages from the motion core to the output
/// writer, blocking backpressure, capacity 8.
pub fn transmission_channel() -> (q: BoundedQueue<Message>)
    ensures
        q.wf(),
        q.view() == Seq::<Message>::empty(),
        q.spec_capacity() == TRANSMISSION_CHANNEL_CAPACITY,
        q.spec_policy() == OverflowPolicy::BlockUntilSpace,
{
    BoundedQueue::new(TRANSMISSION_CHANNEL_CAPACITY, OverflowPolicy::BlockUntilSpace)
}

/// Law: the queue is FIFO — whatever already sits in a queue, three targets
/// enqueued in order land behind it in that same order, so the sole
/// consumer dequeues them in arrival order, never reordered.
pub proof fn lemma_fifo_order<T>(initial: Seq<T>, t1: T, t2: T, t3: T)
    ensures
        initial.push(t1).push(t2).push(t3).skip(initial.len() as int) == seq![t1, t2, t3],
        initial.push(t1).push(t2).push(t3)[initial.len() as int] == t1,
        initial.push(t1).push(t2).push(t3)[initial.len() as int + 1] == t2,
        initial.push(t1).push(t2).push(t3)[initial.len() as int + 2] == t3,
{
    assert(initial.push(t1).push(t2).push(t3).skip(initial.len() as int) =~= seq![t1, t2, t3]);
}

} // verus!
