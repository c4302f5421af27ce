//! A bounded first-in first-out circular buffer.
use vstd::prelude::*;

verus! {

/// The slot that lies `offset` places after `start` in a ring of `capacity`
/// slots (`start < capacity`, `offset <= capacity`).
pub open spec fn ring_slot(capacity: nat, start: nat, offset: nat) -> nat {
    if start + offset < capacity {
        start + offset
    } else {
        (start + offset - capacity) as nat
    }
}

/// A bounded circular buffer. Items leave it in the order in which they were
/// pushed; a push into a full buffer hands the item back.
#[derive(Debug)]
pub struct CircularBuffer<T> {
    capacity: usize,
    data: Vec<T>,
    head: usize,
    tail: usize,
    size: usize,
}

impl<T> CircularBuffer<T> {
    /// The fixed number of items the buffer can hold.
    pub closed spec fn cap(&self) -> nat {
        self.capacity as nat
    }

    /// The buffer's internal invariant, which every operation keeps.
    pub closed spec fn wf(&self) -> bool {
        &&& self.size <= self.capacity
        &&& self.data@.len() <= self.capacity
        &&& self.capacity == 0 ==> self.head == 0 && self.tail == 0 && self.data@.len() == 0
        &&& self.capacity > 0 ==> self.head < self.capacity && self.tail < self.capacity
        &&& self.capacity > 0 ==> self.head == ring_slot(
            self.capacity as nat,
            self.tail as nat,
            self.size as nat,
        ) || (self.head == self.tail && self.size == self.capacity)
        &&& self.data@.len() < self.capacity ==> self.head == self.data@.len()
            && self.tail + self.size == self.data@.len()
    }
}

impl<T> View for CircularBuffer<T> {
    type V = Seq<T>;

    /// The items in the buffer, oldest first.
    closed spec fn view(&self) -> Seq<T> {
        Seq::new(
            self.size as nat,
            |i: int| self.data@[ring_slot(self.capacity as nat, self.tail as nat, i as nat) as int],
        )
    }
}

impl<T: Copy> CircularBuffer<T> {
    /// Creates an empty buffer that holds at most `capacity` items.
    pub fn new(capacity: usize) -> (b: Self)
        ensures
            b.wf(),
            b@ == Seq::<T>::empty(),
            b.cap() == capacity,
    {
        let b = CircularBuffer { capacity, data: Vec::new(), head: 0, tail: 0, size: 0 };
        assert(b@ =~= Seq::<T>::empty());
        b
    }

    /// A well-formed buffer never holds more than its capacity.
    pub proof fn lemma_len_bounded(&self)
        requires
            self.wf(),
        ensures
            self@.len() <= self.cap(),
    {
    }

    /// Returns true if the buffer is empty.
    pub fn is_empty(&self) -> (r: bool)
        requires
            self.wf(),
        ensures
            r == (self@.len() == 0),
    {
        self.len() == 0
    }

    /// Returns true if the buffer is at capacity.
    pub fn is_full(&self) -> (r: bool)
        requires
            self.wf(),
        ensures
            r == (self@.len() == self.cap()),
    {
        self.len() == self.capacity
    }

    /// Returns the count of unread items in the buffer.
    pub fn len(&self) -> (n: usize)
        requires
            self.wf(),
        ensures
            n == self@.len(),
            n <= self.cap(),
    {
        self.size
    }

    /// Returns the remaining capacity in the buffer.
    pub fn remaining(&self) -> (n: usize)
        requires
            self.wf(),
        ensures
            n == self.cap() - self@.len(),
    {
        self.capacity - self.len()
    }

    /// Returns the static maximum capacity of the buffer.
    pub fn capacity(&self) -> (n: usize)
        requires
            self.wf(),
        ensures
            n == self.cap(),
    {
        self.capacity
    }

    /// Pushes `item` into the buffer if space is available, returning `None`.
    /// If the buffer is full, the buffer is unchanged and `Some(item)` is
    /// returned.
    pub fn push(&mut self, item: T) -> (r: Option<T>)
        requires
            old(self).wf(),
        ensures
            final(self).wf(),
            final(self).cap() == old(self).cap(),
            old(self)@.len() == old(self).cap() ==> r == Some(item) && final(self)@ == old(self)@,
            old(self)@.len() < old(self).cap() ==> r is None && final(self)@ == old(self)@.push(
                item,
            ),
    {
        if self.is_full() {
            return Some(item);
        }
        let ghost old_data = self.data@;
        let ghost old_view = self@;
        if self.head == self.data.len() {
            self.data.push(item);
        } else {
            self.data.set(self.head, item);
        }
        let next = if self.head + 1 == self.capacity { 0 } else { self.head + 1 };
        self.head = next;
        self.size = self.size + 1;
        proof {
            assert forall|i: int| 0 <= i < old_view.len() implies #[trigger] self@[i]
                == old_view[i] by {
                let slot = ring_slot(self.capacity as nat, self.tail as nat, i as nat);
                assert(slot < old_data.len());
                assert(slot != ring_slot(
                    self.capacity as nat,
                    self.tail as nat,
                    old_view.len() as nat,
                ));
            }
            assert(self@ =~= old_view.push(item));
        }
        None
    }

    /// Returns the oldest item and removes it, or `None` if the buffer is
    /// empty.
    pub fn pop(&mut self) -> (r: Option<T>)
        requires
            old(self).wf(),
        ensures
            final(self).wf(),
            final(self).cap() == old(self).cap(),
            old(self)@.len() == 0 ==> r is None && final(self)@ == old(self)@,
            old(self)@.len() > 0 ==> r == Some(old(self)@[0]) && final(self)@
                == old(self)@.drop_first(),
    {
        if self.is_empty() {
            return None;
        }
        let ghost old_view = self@;
        let item = self.data[self.tail];
        let next = if self.tail + 1 == self.capacity { 0 } else { self.tail + 1 };
        self.tail = next;
        self.size = self.size - 1;
        proof {
            assert(self@ =~= old_view.drop_first());
        }
        Some(item)
    }
}

} // verus!
