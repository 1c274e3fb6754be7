//! The latest measurements, a fixed number of them, in a circular queue.

use vstd::prelude::*;
use circular_queue::CircularQueue;
use crate::measurement::Measurement;

verus! {

#[verifier::external_type_specification]
#[verifier::external_body]
#[verifier::reject_recursive_types(T)]
pub struct ExCircularQueue<T>(CircularQueue<T>);

/// What a queue holds, from the item pushed longest ago to the one pushed
/// last.
pub uninterp spec fn queue_items(queue: CircularQueue<Measurement>) -> Seq<Measurement>;

/// The capacity that a queue was made with.
pub uninterp spec fn queue_capacity(queue: CircularQueue<Measurement>) -> nat;

/// What a queue of capacity `capacity` that holds `items` holds after
/// `item` has been pushed: nothing if it has no room at all; the item
/// behind the others while there is room; else the item in place of the
/// oldest.
pub open spec fn items_after_push(items: Seq<Measurement>, capacity: nat, item: Measurement)
    -> Seq<Measurement> {
    if capacity == 0 {
        items
    } else if items.len() < capacity {
        items.push(item)
    } else {
        items.skip(1).push(item)
    }
}

/// The item that leaves a queue when another is pushed: the oldest, once
/// the queue is full.
pub open spec fn item_pushed_out(items: Seq<Measurement>, capacity: nat) -> Option<Measurement> {
    if capacity > 0 && items.len() >= capacity {
        Some(items[0])
    } else {
        None
    }
}

/// Calls `CircularQueue::with_capacity`: the queue is empty and keeps the
/// capacity asked for.
#[verifier::external_body]
fn queue_with_capacity(capacity: u16) -> (queue: CircularQueue<Measurement>)
    ensures
        queue_items(queue) == Seq::<Measurement>::empty(),
        queue_capacity(queue) == capacity,
{
    CircularQueue::with_capacity(capacity as usize)
}

/// Calls `CircularQueue::push`: below capacity the item is added; at
/// capacity it takes the place of the oldest item, which is returned; a
/// queue of capacity 0 stays empty.
#[verifier::external_body]
fn queue_push(queue: &mut CircularQueue<Measurement>, item: Measurement) -> (out: Option<
    Measurement,
>)
    requires
        queue_items(*old(queue)).len() <= queue_capacity(*old(queue)),
    ensures
        queue_capacity(*final(queue)) == queue_capacity(*old(queue)),
        queue_items(*final(queue)) == items_after_push(
            queue_items(*old(queue)),
            queue_capacity(*old(queue)),
            item,
        ),
        out == item_pushed_out(queue_items(*old(queue)), queue_capacity(*old(queue))),
{
    queue.push(item)
}

/// Calls `CircularQueue::asc_iter` and clones each item it yields: the
/// items come from the oldest to the newest.
#[verifier::external_body]
fn queue_oldest_first(queue: &CircularQueue<Measurement>) -> (items: Vec<Measurement>)
    ensures
        items@ == queue_items(*queue),
{
    queue.asc_iter().cloned().collect()
}

/// Calls `CircularQueue::len`.
#[verifier::external_body]
fn queue_len(queue: &CircularQueue<Measurement>) -> (count: usize)
    ensures
        count == queue_items(*queue).len(),
{
    queue.len()
}

/// The last `size` of `items`, or all of them if they are fewer.
pub open spec fn latest(items: Seq<Measurement>, size: nat) -> Seq<Measurement> {
    if items.len() > size {
        items.skip(items.len() - size)
    } else {
        items
    }
}

/// Pushing onto the latest of a sequence gives the latest of the longer
/// sequence.
pub proof fn lemma_push_keeps_latest(items: Seq<Measurement>, capacity: nat, item: Measurement)
    ensures
        items_after_push(latest(items, capacity), capacity, item) == latest(
            items.push(item),
            capacity,
        ),
{
    let kept = latest(items, capacity);
    let longer = items.push(item);
    if capacity == 0 {
        assert(kept =~= Seq::<Measurement>::empty());
        assert(latest(longer, capacity) =~= Seq::<Measurement>::empty());
    } else if items.len() < capacity {
        assert(latest(longer, capacity) =~= longer);
    } else {
        assert(kept.skip(1).push(item) =~= latest(longer, capacity));
    }
}

/// The latest measurements, at most as many as the ring has room for.
pub struct ReadingRing {
    queue: CircularQueue<Measurement>,
}

/// A ring as contracts see it.
pub struct RingView {
    /// The measurements held, oldest first.
    pub items: Seq<Measurement>,
    /// How many measurements the ring has room for.
    pub capacity: nat,
}

impl View for ReadingRing {
    type V = RingView;

    closed spec fn view(&self) -> RingView {
        RingView { items: queue_items(self.queue), capacity: queue_capacity(self.queue) }
    }
}

impl RingView {
    /// The ring holds no more than it has room for.
    pub open spec fn wf(self) -> bool {
        self.items.len() <= self.capacity
    }

    /// The ring after `item` has been pushed.
    pub open spec fn push(self, item: Measurement) -> RingView {
        RingView {
            items: items_after_push(self.items, self.capacity, item),
            capacity: self.capacity,
        }
    }
}

impl ReadingRing {
    /// An empty ring with room for `capacity` measurements.
    pub fn with_capacity(capacity: u16) -> (ring: ReadingRing)
        ensures
            ring@.items == Seq::<Measurement>::empty(),
            ring@.capacity == capacity,
            ring@.wf(),
    {
        ReadingRing { queue: queue_with_capacity(capacity) }
    }

    /// Adds `item`. Once the ring is full the oldest measurement makes
    /// room for it and is returned.
    pub fn push(&mut self, item: Measurement) -> (out: Option<Measurement>)
        requires
            old(self)@.wf(),
        ensures
            final(self)@ == old(self)@.push(item),
            out == item_pushed_out(old(self)@.items, old(self)@.capacity),
            final(self)@.wf(),
    {
        queue_push(&mut self.queue, item)
    }

    /// The number of measurements in the ring.
    pub fn len(&self) -> (count: usize)
        ensures
            count == self@.items.len(),
    {
        queue_len(&self.queue)
    }

    /// The measurements in the ring, oldest first.
    pub fn to_vec(&self) -> (items: Vec<Measurement>)
        ensures
            items@ == self@.items,
    {
        queue_oldest_first(&self.queue)
    }
}

} // verus!
