//! Fixed-capacity first-in, first-out ring.
use vstd::prelude::*;

use crate::queue::QueueError;

verus! {

/// FIFO history of at most `N` items. A full ring is an explicit overload:
/// unread items are never overwritten.
#[derive(Clone, Copy, Debug, PartialEq)]
pub struct FixedRing<T: Copy, const N: usize> {
    entries: [Option<T>; N],
    head: usize,
    len: usize,
}

/// The array index of the item `offset` places behind `head`.
spec fn slot(head: int, offset: int, capacity: int) -> int {
    if head + offset < capacity {
        head + offset
    } else {
        head + offset - capacity
    }
}

impl<T: Copy, const N: usize> View for FixedRing<T, N> {
    type V = Seq<T>;

    /// The items from the oldest to the newest.
    closed spec fn view(&self) -> Seq<T> {
        Seq::new(
            self.len as nat,
            |i: int| self.entries@[slot(self.head as int, i, N as int)]->0,
        )
    }
}

impl<T: Copy, const N: usize> FixedRing<T, N> {
    pub closed spec fn wf(self) -> bool {
        &&& self.len <= N
        &&& N > 0 ==> self.head < N
        &&& forall|i: int|
            0 <= i < self.len ==> (#[trigger] self.entries@[slot(
                self.head as int,
                i,
                N as int,
            )]) is Some
    }

    /// A well-formed ring holds at most `N` items.
    pub proof fn wf_facts(self)
        requires
            self.wf(),
        ensures
            self@.len() <= N,
    {
    }

    pub fn new() -> (ring: Self)
        ensures
            ring.wf(),
            ring@ == Seq::<T>::empty(),
    {
        let ring = Self { entries: [None; N], head: 0, len: 0 };
        assert(ring@ =~= Seq::<T>::empty());
        ring
    }

    /// The array index `offset` places behind the head.
    fn index_of(&self, offset: usize) -> (index: usize)
        requires
            self.wf(),
            offset < N,
        ensures
            index == slot(self.head as int, offset as int, N as int),
            index < N,
    {
        let until_end: usize = N - self.head;
        if offset < until_end {
            self.head + offset
        } else {
            offset - until_end
        }
    }

    /// Appends `value`, or leaves a full ring as it is.
    pub fn push_back(&mut self, value: T) -> (r: Result<(), QueueError>)
        requires
            old(self).wf(),
        ensures
            final(self).wf(),
            r == (if old(self)@.len() == N {
                Err::<(), QueueError>(QueueError::Capacity)
            } else {
                Ok(())
            }),
            r is Ok ==> final(self)@ == old(self)@.push(value),
            r is Err ==> *final(self) == *old(self),
            forall|i: int| #[trigger] final(self).spec_slot_of(i) == old(self).spec_slot_of(i),
    {
        if self.len == N || N == 0 {
            return Err(QueueError::Capacity);
        }
        let index = self.index_of(self.len);
        self.entries[index] = Some(value);
        self.len = self.len + 1;
        assert(self@ =~= old(self)@.push(value));
        Ok(())
    }

    /// The item `offset` places behind the oldest one.
    pub fn get(&self, offset: usize) -> (item: Option<&T>)
        requires
            self.wf(),
        ensures
            item == (if offset < self@.len() {
                Some(&self@[offset as int])
            } else {
                None
            }),
    {
        if offset >= self.len || N == 0 {
            None
        } else {
            let index = self.index_of(offset);
            self.entries[index].as_ref()
        }
    }

    /// The storage slot of the item `offset` places behind the oldest one. An
    /// item keeps its slot for as long as it is in the ring.
    pub closed spec fn spec_slot_of(self, offset: int) -> int {
        slot(self.head as int, offset, N as int)
    }

    pub fn slot_of(&self, offset: usize) -> (index: usize)
        requires
            self.wf(),
            offset < N,
        ensures
            index == self.spec_slot_of(offset as int),
            index < N,
    {
        self.index_of(offset)
    }

    /// No two items share a slot.
    pub proof fn slots_are_distinct(self, a: int, b: int)
        requires
            self.wf(),
            0 <= a < b < N,
        ensures
            self.spec_slot_of(a) != self.spec_slot_of(b),
    {
    }

    /// Replaces the item `offset` places behind the oldest one.
    pub fn set(&mut self, offset: usize, value: T)
        requires
            old(self).wf(),
            offset < old(self)@.len(),
        ensures
            final(self).wf(),
            final(self)@ == old(self)@.update(offset as int, value),
            forall|i: int| #[trigger] final(self).spec_slot_of(i) == old(self).spec_slot_of(i),
    {
        let index = self.index_of(offset);
        self.entries[index] = Some(value);
        assert(self@ =~= old(self)@.update(offset as int, value));
    }

    /// The oldest item.
    pub fn front(&self) -> (item: Option<&T>)
        requires
            self.wf(),
        ensures
            item == (if 0 < self@.len() {
                Some(&self@[0])
            } else {
                None
            }),
    {
        self.get(0)
    }

    /// Removes the oldest item.
    pub fn pop_front(&mut self) -> (item: Option<T>)
        requires
            old(self).wf(),
        ensures
            final(self).wf(),
            old(self)@.len() == 0 ==> item is None && *final(self) == *old(self),
            old(self)@.len() > 0 ==> item == Some(old(self)@[0]) && final(self)@ == old(
                self,
            )@.subrange(1, old(self)@.len() as int),
            old(self)@.len() > 0 ==> forall|i: int|
                0 <= i < N - 1 ==> #[trigger] final(self).spec_slot_of(i) == old(
                    self,
                ).spec_slot_of(i + 1),
            old(self)@.len() > 0 ==> final(self).spec_slot_of(N - 1) == old(self).spec_slot_of(0),
    {
        if self.len == 0 {
            return None;
        }
        let head: usize = self.head;
        assert(slot(head as int, 0, N as int) == head);
        let value = self.entries[head];
        self.entries[head] = None;
        self.head = if head + 1 == N {
            0
        } else {
            head + 1
        };
        self.len = self.len - 1;
        assert forall|i: int| 0 <= i < self.len implies (#[trigger] self.entries@[slot(
            self.head as int,
            i,
            N as int,
        )]) == old(self).entries@[slot(head as int, i + 1, N as int)] by {}
        assert(self@ =~= old(self)@.subrange(1, old(self)@.len() as int));
        value
    }

    pub fn len(&self) -> (len: usize)
        requires
            self.wf(),
        ensures
            len == self@.len(),
            len <= N,
    {
        self.len
    }

    /// How many more items fit.
    pub fn available(&self) -> (available: usize)
        requires
            self.wf(),
        ensures
            available == N - self@.len(),
    {
        N - self.len
    }
}

/// Items come out of a ring in the order in which they went in, and nothing else does:
/// what is appended becomes the newest, what is removed was the oldest, and a full ring
/// keeps what it has.
pub proof fn rings_are_first_in_first_out<T: Copy, const N: usize>(
    pushed: &mut FixedRing<T, N>,
    popped: &mut FixedRing<T, N>,
    value: T,
    taken: Result<(), QueueError>,
    item: Option<T>,
)
    requires
        old(pushed).wf(),
        call_ensures(FixedRing::<T, N>::push_back, (pushed, value), taken),
        call_ensures(FixedRing::<T, N>::pop_front, (popped,), item),
    ensures
        taken is Ok <==> old(pushed)@.len() < N,
        taken is Ok ==> final(pushed)@ == old(pushed)@ + seq![value],
        taken is Err ==> final(pushed)@ == old(pushed)@,
        item is None <==> old(popped)@.len() == 0,
        item matches Some(first) ==> old(popped)@ == seq![first] + final(popped)@,
        item is None ==> final(popped)@ == old(popped)@,
{
    old(pushed).wf_facts();
    assert(old(pushed)@.push(value) =~= old(pushed)@ + seq![value]);
    if old(popped)@.len() > 0 {
        assert(old(popped)@ =~= seq![old(popped)@[0]] + final(popped)@);
    }
}

/// Looking at an item tells what is there, and replacing one touches no other.
pub proof fn items_are_found_where_they_are<T: Copy, const N: usize>(
    ring: &mut FixedRing<T, N>,
    offset: usize,
    other: usize,
    value: T,
    before: Option<&T>,
    after: Option<&T>,
    after_other: Option<&T>,
    len: usize,
    room: usize,
)
    requires
        old(ring).wf(),
        offset < old(ring)@.len(),
        call_ensures(FixedRing::<T, N>::get, (&*old(ring), other), before),
        call_ensures(FixedRing::<T, N>::set, (ring, offset, value), ()),
        call_ensures(FixedRing::<T, N>::get, (&*final(ring), offset), after),
        call_ensures(FixedRing::<T, N>::get, (&*final(ring), other), after_other),
        call_ensures(FixedRing::<T, N>::len, (&*final(ring),), len),
        call_ensures(FixedRing::<T, N>::available, (&*final(ring),), room),
    ensures
        after == Some(&value),
        other != offset ==> after_other == before,
        before is Some <==> other < len,
        len + room == N,
        len == old(ring)@.len(),
{
}

} // verus!
