//! Fixed-capacity single-producer/single-consumer command queue.
//!
//! The channel is the only piece of state shared between the control side and
//! the real-time side of the bridge. It is created once with a fixed capacity
//! and never grows: `push` rejects new items instead of blocking or
//! reallocating when the queue is full, and `pop` reports emptiness instead of
//! waiting, so neither side can stall the other.
//!
//! The storage is a ring: a vector of slots whose length never changes after
//! construction, a head index pointing at the oldest pending item, and a count
//! of pending items. Pushing writes the slot just past the pending range;
//! popping reads the head slot and advances the head, wrapping at the end of
//! the vector. Items therefore leave in exactly the order they entered.

use vstd::arithmetic::div_mod::*;
use vstd::prelude::*;

verus! {

/// What one attempted `push` leaves in a queue with the given capacity:
/// the item is appended if there is room, and dropped otherwise.
pub open spec fn spec_push<T>(s: Seq<T>, capacity: nat, item: T) -> Seq<T> {
    if s.len() < capacity {
        s.push(item)
    } else {
        s
    }
}

/// What a sequence of attempted pushes leaves in the queue, first item first.
pub open spec fn spec_push_seq<T>(s: Seq<T>, capacity: nat, items: Seq<T>) -> Seq<T>
    decreases items.len(),
{
    if items.len() == 0 {
        s
    } else {
        spec_push_seq(spec_push(s, capacity, items[0]), capacity, items.drop_first())
    }
}

/// Bounded queue carrying values of type `T` from the non-real-time control
/// side to the real-time processing side.
///
/// In a deployment the two ends live on different threads and the slots are
/// the only memory both touch; in this sequential model the whole channel is
/// one value, owned by the producing side and lent to the consuming side for
/// the duration of each callback. Its view is the sequence of pending items,
/// oldest first.
pub struct CommandChannel<T> {
    /// Backing slots; the vector's length is the fixed capacity and is never
    /// changed after construction, so no call allocates.
    slots: Vec<Option<T>>,
    /// Index of the slot holding the oldest pending item.
    head: usize,
    /// Number of pending items.
    len: usize,
}

impl<T> View for CommandChannel<T> {
    type V = Seq<T>;

    /// The pending items, oldest first.
    closed spec fn view(&self) -> Seq<T> {
        Seq::new(self.len as nat, |i: int| self.slots@[self.slot_index(i)].unwrap())
    }
}

impl<T> CommandChannel<T> {
    /// The fixed capacity chosen at construction.
    pub closed spec fn spec_capacity(&self) -> nat {
        self.slots@.len()
    }

    /// Slot holding the `i`-th oldest pending item.
    closed spec fn slot_index(&self, i: int) -> int {
        (self.head + i) % (self.slots@.len() as int)
    }

    /// The head index is in range, the count never exceeds the capacity, and
    /// every slot in the pending range is occupied.
    pub closed spec fn well_formed(&self) -> bool {
        &&& self.len <= self.slots@.len()
        &&& if self.slots@.len() == 0 {
            self.head == 0
        } else {
            self.head < self.slots@.len()
        }
        &&& forall|i: int|
            0 <= i < self.len ==> self.slots@[#[trigger] self.slot_index(i)] is Some
    }
}

/// For an index within the first two turns of the ring, taking the remainder
/// is the same as subtracting the capacity once or not at all.
proof fn lemma_wrap_index(x: int, capacity: int)
    requires
        0 < capacity,
        0 <= x < 2 * capacity,
    ensures
        x % capacity == if x < capacity {
            x
        } else {
            x - capacity
        },
{
    if x < capacity {
        lemma_small_mod(x as nat, capacity as nat);
    } else {
        lemma_mod_sub_multiples_vanish(x, capacity);
        lemma_small_mod((x - capacity) as nat, capacity as nat);
    }
}

/// Two distinct offsets into the pending range land on distinct slots.
proof fn lemma_ring_distinct(head: int, capacity: int, i: int, j: int)
    requires
        0 <= head < capacity,
        0 <= i < j < capacity,
    ensures
        (head + i) % capacity != (head + j) % capacity,
{
    lemma_wrap_index(head + i, capacity);
    lemma_wrap_index(head + j, capacity);
}

impl<T: Copy> CommandChannel<T> {
    /// Builds an empty channel whose capacity is fixed for its whole life.
    pub fn new(capacity: usize) -> (channel: CommandChannel<T>)
        ensures
            channel.well_formed(),
            channel.spec_capacity() == capacity,
            channel@ == Seq::<T>::empty(),
    {
        let mut slots: Vec<Option<T>> = Vec::with_capacity(capacity);
        let mut i: usize = 0;
        while i < capacity
            invariant
                i <= capacity,
                slots@.len() == i,
            decreases capacity - i,
        {
            slots.push(None);
            i = i + 1;
        }
        let channel = CommandChannel { slots, head: 0, len: 0 };
        proof {
            assert(channel@ =~= Seq::<T>::empty());
        }
        channel
    }

    /// The fixed capacity.
    pub fn capacity(&self) -> (capacity: usize)
        ensures
            capacity == self.spec_capacity(),
    {
        self.slots.len()
    }

    /// How many items are pending.
    pub fn len(&self) -> (len: usize)
        ensures
            len == self@.len(),
    {
        self.len
    }

    /// Whether the channel holds no pending item.
    pub fn is_empty(&self) -> (empty: bool)
        ensures
            empty == (self@.len() == 0),
    {
        self.len == 0
    }

    /// Advisory check the producer makes before pushing, so a full channel
    /// turns into a clean "dropped" report instead of a silent failure.
    pub fn is_full(&self) -> (full: bool)
        ensures
            full == (self@.len() == self.spec_capacity()),
    {
        self.len == self.slots.len()
    }

    /// Attempts to enqueue one item without blocking. A full channel leaves
    /// the pending items untouched and reports the rejection; it never grows
    /// the storage and never overwrites older items.
    pub fn push(&mut self, item: T) -> (accepted: bool)
        requires
            old(self).well_formed(),
        ensures
            final(self).well_formed(),
            final(self).spec_capacity() == old(self).spec_capacity(),
            accepted == (old(self)@.len() < old(self).spec_capacity()),
            final(self)@ == spec_push(old(self)@, old(self).spec_capacity(), item),
    {
        let capacity = self.slots.len();
        if self.len == capacity {
            false
        } else {
            let index = if self.head < capacity - self.len {
                self.head + self.len
            } else {
                self.head - (capacity - self.len)
            };
            proof {
                lemma_wrap_index(self.head + self.len, capacity as int);
                assert(index == self.slot_index(self.len as int));
            }
            self.slots[index] = Some(item);
            self.len = self.len + 1;
            proof {
                let ghost pre = *old(self);
                assert forall|i: int| 0 <= i < pre.len implies #[trigger] pre.slot_index(i)
                    != pre.slot_index(pre.len as int) by {
                    lemma_ring_distinct(pre.head as int, capacity as int, i, pre.len as int);
                }
                assert forall|i: int| 0 <= i < self.len implies self.slots@[#[trigger] self.slot_index(i)] is Some by {
                    assert(self.slot_index(i) == pre.slot_index(i));
                }
                assert(self@ =~= pre@.push(item));
            }
            true
        }
    }

    /// Attempts to dequeue the oldest pending item without blocking. An empty
    /// channel reports `None` at once: emptiness is the normal end of the
    /// consumer's drain loop, not an error.
    pub fn pop(&mut self) -> (popped: Option<T>)
        requires
            old(self).well_formed(),
        ensures
            final(self).well_formed(),
            final(self).spec_capacity() == old(self).spec_capacity(),
            old(self)@.len() == 0 ==> popped is None && final(self)@ == old(self)@,
            old(self)@.len() > 0 ==> popped == Some(old(self)@[0]) && final(self)@
                == old(self)@.drop_first(),
    {
        if self.len == 0 {
            None
        } else {
            let capacity = self.slots.len();
            proof {
                lemma_small_mod(self.head as nat, capacity as nat);
                assert(self.slot_index(0) == self.head as int);
            }
            let popped = self.slots[self.head];
            self.slots[self.head] = None;
            self.head = if self.head + 1 < capacity {
                self.head + 1
            } else {
                0
            };
            self.len = self.len - 1;
            proof {
                let ghost pre = *old(self);
                lemma_wrap_index(pre.head + 1, capacity as int);
                assert(self.head as int == (pre.head + 1) % (capacity as int));
                assert forall|i: int| 0 <= i < self.len implies self.slot_index(i)
                    == pre.slot_index(i + 1) && self.slot_index(i) != pre.head by {
                    lemma_small_mod(i as nat, capacity as nat);
                    lemma_add_mod_noop(pre.head + 1, i, capacity as int);
                    lemma_small_mod(pre.head as nat, capacity as nat);
                    lemma_ring_distinct(pre.head as int, capacity as int, 0, i + 1);
                }
                assert forall|i: int| 0 <= i < self.len implies self.slots@[#[trigger] self.slot_index(i)] is Some by {
                    assert(pre.slots@[pre.slot_index(i + 1)] is Some);
                }
                assert(self@ =~= pre@.drop_first());
            }
            popped
        }
    }
}

/// First-in/first-out, push side: starting from an empty channel, a run of
/// pushes that all fit within the capacity is wholly accepted and leaves
/// exactly those items pending, in the order they were pushed.
pub proof fn lemma_fifo_push_order<T>(items: Seq<T>, capacity: nat)
    requires
        items.len() <= capacity,
    ensures
        spec_push_seq(Seq::<T>::empty(), capacity, items) == items,
{
    lemma_push_seq_all_fit(Seq::<T>::empty(), capacity, items);
    assert(Seq::<T>::empty() + items =~= items);
}

/// First-in/first-out, pop side: after `k` pops from a channel holding
/// `items`, the pending sequence is `items` without its first `k` entries, so
/// the next pop (whose contract returns the front and drops it) yields
/// `items[k]` and leaves `items` without its first `k + 1` entries.
pub proof fn lemma_fifo_pop_order<T>(items: Seq<T>, k: int)
    requires
        0 <= k < items.len(),
    ensures
        items.skip(k).len() > 0,
        items.skip(k)[0] == items[k],
        items.skip(k).drop_first() == items.skip(k + 1),
{
    assert(items.skip(k).drop_first() =~= items.skip(k + 1));
}

/// Capacity bound: pushing `capacity + 1` items into an empty channel with no
/// interleaved pops accepts the first `capacity` of them, and the final push
/// changes nothing: the channel still holds exactly the first `capacity`
/// items. Together with `push`'s contract, that final push reports rejection.
pub proof fn lemma_capacity_bound<T>(items: Seq<T>, capacity: nat)
    requires
        items.len() == capacity + 1,
    ensures
        spec_push_seq(Seq::<T>::empty(), capacity, items.take(capacity as int)) == items.take(
            capacity as int,
        ),
        spec_push(items.take(capacity as int), capacity, items.last()) == items.take(
            capacity as int,
        ),
{
    lemma_fifo_push_order(items.take(capacity as int), capacity);
}

/// Pushes that all fit are all accepted: the pending sequence grows by exactly
/// the pushed items, in order.
proof fn lemma_push_seq_all_fit<T>(s: Seq<T>, capacity: nat, items: Seq<T>)
    requires
        s.len() + items.len() <= capacity,
    ensures
        spec_push_seq(s, capacity, items) == s + items,
    decreases items.len(),
{
    if items.len() == 0 {
        assert(s + items =~= s);
    } else {
        lemma_push_seq_all_fit(s.push(items[0]), capacity, items.drop_first());
        assert(s.push(items[0]) + items.drop_first() =~= s + items);
    }
}

} // verus!
