//! Sorted, fixed-capacity queue of scheduled observations.
use vstd::prelude::*;

use crate::order::{key_order_is_total, OrderKey};
use crate::order::key_lt;

verus! {

#[derive(Clone, Copy, Debug, PartialEq)]
pub struct Scheduled<T: Copy> {
    pub key: OrderKey,
    pub value: T,
}

#[derive(Clone, Copy, Debug, PartialEq, Eq, Structural)]
pub enum QueueError {
    Capacity,
    DuplicateKey,
}

/// Entries stand in strictly increasing key order; in particular no key
/// occurs twice.
pub open spec fn chronological<T: Copy>(entries: Seq<Scheduled<T>>) -> bool {
    forall|i: int, j: int|
        #![trigger entries[i], entries[j]]
        0 <= i < j < entries.len() ==> key_lt(entries[i].key, entries[j].key)
}

pub open spec fn has_key<T: Copy>(entries: Seq<Scheduled<T>>, key: OrderKey) -> bool {
    exists|i: int| 0 <= i < entries.len() && (#[trigger] entries[i]).key == key
}

/// How many leading entries precede `key`.
pub open spec fn rank<T: Copy>(entries: Seq<Scheduled<T>>, key: OrderKey) -> nat
    decreases entries.len(),
{
    if entries.len() == 0 || !key_lt(entries[0].key, key) {
        0
    } else {
        1 + rank(entries.subrange(1, entries.len() as int), key)
    }
}

/// The entries with one more in its chronological place.
pub open spec fn inserted<T: Copy>(entries: Seq<Scheduled<T>>, entry: Scheduled<T>) -> Seq<
    Scheduled<T>,
> {
    entries.insert(rank(entries, entry.key) as int, entry)
}

/// The preflight verdict on one more entry in a queue of capacity `capacity`.
pub open spec fn push_verdict<T: Copy>(
    entries: Seq<Scheduled<T>>,
    capacity: nat,
    key: OrderKey,
) -> Result<(), QueueError> {
    if entries.len() == capacity {
        Err(QueueError::Capacity)
    } else if has_key(entries, key) {
        Err(QueueError::DuplicateKey)
    } else {
        Ok(())
    }
}

proof fn rank_is_position<T: Copy>(entries: Seq<Scheduled<T>>, key: OrderKey, position: int)
    requires
        0 <= position <= entries.len(),
        forall|i: int| 0 <= i < position ==> key_lt((#[trigger] entries[i]).key, key),
        position < entries.len() ==> !key_lt(entries[position].key, key),
    ensures
        rank(entries, key) == position,
    decreases entries.len(),
{
    if position > 0 {
        let rest = entries.subrange(1, entries.len() as int);
        assert(key_lt(entries[0].key, key));
        assert forall|i: int| 0 <= i < position - 1 implies key_lt((#[trigger] rest[i]).key, key) by {
            assert(rest[i] == entries[i + 1]);
        }
        if position < entries.len() {
            assert(rest[position - 1] == entries[position]);
        }
        rank_is_position(rest, key, position - 1);
    }
}

/// Inserting an entry with a new key keeps the queue chronological, whatever
/// the order of arrival.
pub proof fn insertion_keeps_order<T: Copy>(entries: Seq<Scheduled<T>>, entry: Scheduled<T>)
    requires
        chronological(entries),
        !has_key(entries, entry.key),
    ensures
        rank(entries, entry.key) <= entries.len(),
        chronological(inserted(entries, entry)),
        inserted(entries, entry).len() == entries.len() + 1,
        forall|i: int|
            0 <= i < rank(entries, entry.key) ==> key_lt((#[trigger] entries[i]).key, entry.key),
        forall|i: int|
            rank(entries, entry.key) <= i < entries.len() ==> key_lt(
                entry.key,
                (#[trigger] entries[i]).key,
            ),
{
    rank_bounds(entries, entry.key);
    let r = rank(entries, entry.key) as int;
    assert forall|i: int| r <= i < entries.len() implies key_lt(
        entry.key,
        (#[trigger] entries[i]).key,
    ) by {
        key_order_is_total(entry.key, entries[i].key, entry.key);
        if r < i {
            key_order_is_total(entries[r].key, entries[i].key, entry.key);
        }
    }
    let after = inserted(entries, entry);
    assert forall|i: int, j: int|
        #![trigger after[i], after[j]]
        0 <= i < j < after.len() implies key_lt(after[i].key, after[j].key) by {
        if i < r && j < r {
            assert(after[i] == entries[i] && after[j] == entries[j]);
        } else if i < r && j == r {
            assert(after[i] == entries[i]);
        } else if i < r {
            assert(after[i] == entries[i] && after[j] == entries[j - 1]);
        } else if i == r {
            assert(after[j] == entries[j - 1]);
        } else {
            assert(after[i] == entries[i - 1] && after[j] == entries[j - 1]);
        }
    }
}

proof fn rank_bounds<T: Copy>(entries: Seq<Scheduled<T>>, key: OrderKey)
    ensures
        rank(entries, key) <= entries.len(),
        forall|i: int| 0 <= i < rank(entries, key) ==> key_lt((#[trigger] entries[i]).key, key),
        rank(entries, key) < entries.len() ==> !key_lt(
            entries[rank(entries, key) as int].key,
            key,
        ),
    decreases entries.len(),
{
    if entries.len() > 0 && key_lt(entries[0].key, key) {
        let rest = entries.subrange(1, entries.len() as int);
        rank_bounds(rest, key);
        assert forall|i: int| 0 <= i < rank(entries, key) implies key_lt(
            (#[trigger] entries[i]).key,
            key,
        ) by {
            if i > 0 {
                assert(entries[i] == rest[i - 1]);
            }
        }
        if rank(entries, key) < entries.len() {
            assert(rest[rank(rest, key) as int] == entries[rank(entries, key) as int]);
        }
    }
}

/// What holds of every entry and of a new one holds of every entry after the
/// insertion.
pub proof fn insertion_keeps_property<T: Copy>(
    entries: Seq<Scheduled<T>>,
    entry: Scheduled<T>,
    property: spec_fn(Scheduled<T>) -> bool,
)
    requires
        property(entry),
        forall|i: int| 0 <= i < entries.len() ==> property(#[trigger] entries[i]),
    ensures
        forall|i: int|
            0 <= i < inserted(entries, entry).len() ==> property(
                #[trigger] inserted(entries, entry)[i],
            ),
{
    rank_bounds(entries, entry.key);
    let r = rank(entries, entry.key) as int;
    let after = inserted(entries, entry);
    assert forall|i: int| 0 <= i < after.len() implies property(#[trigger] after[i]) by {
        if i < r {
            assert(after[i] == entries[i]);
        } else if i > r {
            assert(after[i] == entries[i - 1]);
        }
    }
}

/// Two entries with different new keys end up in the same queue whichever of
/// them arrives first.
pub proof fn arrival_order_is_irrelevant<T: Copy>(
    entries: Seq<Scheduled<T>>,
    a: Scheduled<T>,
    b: Scheduled<T>,
)
    requires
        chronological(entries),
        !has_key(entries, a.key),
        !has_key(entries, b.key),
        a.key != b.key,
    ensures
        inserted(inserted(entries, a), b) == inserted(inserted(entries, b), a),
{
    key_order_is_total(a.key, b.key, a.key);
    if key_lt(b.key, a.key) {
        arrival_order_of_ordered_pair(entries, b, a);
    } else {
        arrival_order_of_ordered_pair(entries, a, b);
    }
}

proof fn arrival_order_of_ordered_pair<T: Copy>(
    entries: Seq<Scheduled<T>>,
    a: Scheduled<T>,
    b: Scheduled<T>,
)
    requires
        chronological(entries),
        !has_key(entries, a.key),
        !has_key(entries, b.key),
        key_lt(a.key, b.key),
    ensures
        inserted(inserted(entries, a), b) == inserted(inserted(entries, b), a),
{
    insertion_keeps_order(entries, a);
    insertion_keeps_order(entries, b);
    let ra = rank(entries, a.key) as int;
    let rb = rank(entries, b.key) as int;
    if rb < ra {
        assert(key_lt(entries[rb].key, a.key));
        assert(key_lt(b.key, entries[rb].key));
        key_order_is_total(a.key, b.key, entries[rb].key);
        key_order_is_total(a.key, entries[rb].key, a.key);
        assert(false);
    }
    let with_a = inserted(entries, a);
    let with_b = inserted(entries, b);
    assert forall|i: int| 0 <= i < rb + 1 implies key_lt((#[trigger] with_a[i]).key, b.key) by {
        if i < ra {
            assert(with_a[i] == entries[i]);
        } else if i > ra {
            assert(with_a[i] == entries[i - 1]);
        }
    }
    if rb + 1 < with_a.len() {
        assert(with_a[rb + 1] == entries[rb]);
        key_order_is_total(b.key, entries[rb].key, b.key);
    }
    rank_is_position(with_a, b.key, rb + 1);
    assert forall|i: int| 0 <= i < ra implies key_lt((#[trigger] with_b[i]).key, a.key) by {
        assert(with_b[i] == entries[i]);
    }
    if ra < with_b.len() {
        if ra < rb {
            assert(with_b[ra] == entries[ra]);
            key_order_is_total(a.key, entries[ra].key, a.key);
        } else {
            assert(with_b[ra] == b);
            key_order_is_total(a.key, b.key, a.key);
        }
    }
    rank_is_position(with_b, a.key, ra);
    assert(inserted(with_a, b) =~= inserted(with_b, a));
}

/// Sorted queue of at most `N` scheduled entries. A full queue rejects new
/// entries; it never overwrites.
#[derive(Clone, Copy, Debug, PartialEq)]
pub struct ChronologicalQueue<T: Copy, const N: usize> {
    entries: [Option<Scheduled<T>>; N],
    len: usize,
}

impl<T: Copy, const N: usize> View for ChronologicalQueue<T, N> {
    type V = Seq<Scheduled<T>>;

    closed spec fn view(&self) -> Seq<Scheduled<T>> {
        Seq::new(self.len as nat, |i: int| self.entries@[i]->0)
    }
}

impl<T: Copy, const N: usize> ChronologicalQueue<T, N> {
    spec fn shape(self) -> bool {
        &&& self.len <= N
        &&& forall|i: int| 0 <= i < self.len ==> (#[trigger] self.entries@[i]) is Some
        &&& forall|i: int| self.len <= i < N ==> (#[trigger] self.entries@[i]) is None
    }

    pub closed spec fn wf(self) -> bool {
        &&& self.shape()
        &&& chronological(self@)
    }

    /// What every well-formed queue holds: at most `N` entries in
    /// chronological order.
    pub proof fn wf_facts(self)
        requires
            self.wf(),
        ensures
            self@.len() <= N,
            chronological(self@),
    {
    }

    pub fn new() -> (queue: Self)
        ensures
            queue.wf(),
            queue@ == Seq::<Scheduled<T>>::empty(),
    {
        let queue = Self { entries: [None; N], len: 0 };
        assert(queue@ =~= Seq::<Scheduled<T>>::empty());
        queue
    }

    pub fn len(&self) -> (len: usize)
        requires
            self.wf(),
        ensures
            len == self@.len(),
            len <= N,
    {
        self.len
    }

    pub fn capacity(&self) -> (capacity: usize)
        ensures
            capacity == N,
    {
        N
    }

    /// Empties the queue in place.
    pub fn clear(&mut self)
        requires
            old(self).wf(),
        ensures
            final(self).wf(),
            final(self)@ == Seq::<Scheduled<T>>::empty(),
    {
        let mut index: usize = 0;
        while index < N
            invariant
                index <= N,
                forall|i: int| 0 <= i < index ==> (#[trigger] self.entries@[i]) is None,
            decreases N - index,
        {
            self.entries[index] = None;
            index = index + 1;
        }
        self.len = 0;
        assert(self@ =~= Seq::<Scheduled<T>>::empty());
    }

    /// Whether `entry` could be inserted.
    pub fn preflight_push(&self, entry: &Scheduled<T>) -> (verdict: Result<(), QueueError>)
        requires
            self.wf(),
        ensures
            verdict == push_verdict(self@, N as nat, entry.key),
    {
        if self.len == N {
            return Err(QueueError::Capacity);
        }
        let mut index: usize = 0;
        while index < self.len
            invariant
                index <= self.len,
                self.len < N,
                self.wf(),
                forall|i: int| 0 <= i < index ==> (#[trigger] self@[i]).key != entry.key,
            decreases self.len - index,
        {
            assert(self@[index as int] == self.entries@[index as int]->0);
            if let Some(existing) = self.entries[index] {
                if existing.key == entry.key {
                    return Err(QueueError::DuplicateKey);
                }
            }
            index = index + 1;
        }
        Ok(())
    }

    /// Inserts an entry that `preflight_push` has accepted.
    pub fn push_prevalidated(&mut self, entry: Scheduled<T>)
        requires
            old(self).wf(),
            push_verdict(old(self)@, N as nat, entry.key) is Ok,
        ensures
            final(self).wf(),
            final(self)@ == inserted(old(self)@, entry),
    {
        let ghost before = self@;
        let mut insertion: usize = 0;
        while insertion < self.len
            invariant_except_break
                forall|i: int| 0 <= i < insertion ==> key_lt((#[trigger] before[i]).key, entry.key),
            invariant
                insertion <= self.len,
                *self == *old(self),
                self.wf(),
                self@ == before,
            ensures
                forall|i: int| 0 <= i < insertion ==> key_lt((#[trigger] before[i]).key, entry.key),
                insertion < self.len ==> !key_lt(before[insertion as int].key, entry.key),
            decreases self.len - insertion,
        {
            assert(before[insertion as int] == self.entries@[insertion as int]->0);
            match self.entries[insertion] {
                Some(existing) => {
                    if existing.key.precedes(&entry.key) {
                        insertion = insertion + 1;
                    } else {
                        break;
                    }
                },
                None => {
                    break;
                },
            }
        }
        proof {
            insertion_keeps_order(before, entry);
            rank_is_position(before, entry.key, insertion as int);
        }
        let mut index: usize = self.len;
        while index > insertion
            invariant
                insertion <= index <= self.len < N,
                self.len == old(self).len,
                old(self).shape(),
                forall|i: int|
                    0 <= i <= index && i < N ==> (#[trigger] self.entries@[i]) == old(
                        self,
                    ).entries@[i],
                forall|i: int|
                    index < i <= self.len ==> (#[trigger] self.entries@[i]) == old(
                        self,
                    ).entries@[i - 1],
                forall|i: int|
                    self.len < i < N ==> (#[trigger] self.entries@[i]) == old(self).entries@[i],
            decreases index,
        {
            let moved = self.entries[index - 1];
            self.entries[index] = moved;
            index = index - 1;
        }
        self.entries[insertion] = Some(entry);
        self.len = self.len + 1;
        proof {
            let after = self@;
            let expected = inserted(before, entry);
            assert forall|i: int| 0 <= i < after.len() implies after[i] == expected[i] by {
                assert(after[i] == self.entries@[i]->0);
                if i < insertion {
                    assert(before[i] == old(self).entries@[i]->0);
                } else if i > insertion {
                    assert(before[i - 1] == old(self).entries@[i - 1]->0);
                }
            }
            assert(after =~= expected);
        }
    }

    /// The earliest entry.
    pub fn first(&self) -> (first: Option<&Scheduled<T>>)
        requires
            self.wf(),
        ensures
            first == (if self@.len() == 0 {
                None
            } else {
                Some(&self@[0])
            }),
    {
        if N == 0 {
            None
        } else {
            self.entries[0].as_ref()
        }
    }

    /// Removes the earliest entry.
    pub fn pop_first(&mut self) -> (first: Option<Scheduled<T>>)
        requires
            old(self).wf(),
        ensures
            final(self).wf(),
            old(self)@.len() == 0 ==> first is None && final(self)@ == old(self)@,
            old(self)@.len() > 0 ==> first == Some(old(self)@[0]) && final(self)@ == old(
                self,
            )@.subrange(1, old(self)@.len() as int),
    {
        let ghost before = self@;
        if self.len == 0 {
            return None;
        }
        let first = self.entries[0];
        let mut index: usize = 1;
        while index < self.len
            invariant
                1 <= index <= self.len <= N,
                self.len == old(self).len,
                old(self).shape(),
                forall|i: int|
                    0 <= i < index - 1 ==> (#[trigger] self.entries@[i]) == old(self).entries@[i
                        + 1],
                forall|i: int|
                    index - 1 <= i < N && 1 <= i ==> (#[trigger] self.entries@[i]) == old(
                        self,
                    ).entries@[i],
            decreases self.len - index,
        {
            let moved = self.entries[index];
            self.entries[index - 1] = moved;
            index = index + 1;
        }
        self.len = self.len - 1;
        let last: usize = self.len;
        self.entries[last] = None;
        proof {
            let expected = before.subrange(1, before.len() as int);
            assert forall|i: int| 0 <= i < self@.len() implies self@[i] == expected[i] by {
                assert(self@[i] == self.entries@[i]->0);
                assert(expected[i] == before[i + 1]);
                assert(before[i + 1] == old(self).entries@[i + 1]->0);
            }
            assert(self@ =~= expected);
            assert forall|i: int, j: int|
                #![trigger expected[i], expected[j]]
                0 <= i < j < expected.len() implies key_lt(expected[i].key, expected[j].key) by {
                assert(expected[i] == before[i + 1] && expected[j] == before[j + 1]);
            }
        }
        first
    }

    /// Visits the entries in order until one visit fails.
    pub fn try_for_each<E, F: Fn(&Scheduled<T>) -> Result<(), E>>(&self, visit: F) -> (r: Result<
        (),
        E,
    >)
        requires
            self.wf(),
            forall|i: int| 0 <= i < self@.len() ==> call_requires(visit, (&#[trigger] self@[i],)),
        ensures
            r is Ok ==> forall|i: int|
                0 <= i < self@.len() ==> call_ensures(visit, (&#[trigger] self@[i],), Ok(())),
            r matches Err(e) ==> exists|k: int|
                0 <= k < self@.len() && call_ensures(visit, (&#[trigger] self@[k],), Err(e))
                    && forall|i: int|
                    0 <= i < k ==> call_ensures(visit, (&#[trigger] self@[i],), Ok(())),
    {
        let mut index: usize = 0;
        while index < self.len
            invariant
                index <= self.len <= N,
                self.wf(),
                forall|i: int|
                    0 <= i < self@.len() ==> call_requires(visit, (&#[trigger] self@[i],)),
                forall|i: int|
                    0 <= i < index ==> call_ensures(visit, (&#[trigger] self@[i],), Ok(())),
            decreases self.len - index,
        {
            assert(self@[index as int] == self.entries@[index as int]->0);
            if let Some(entry) = self.entries[index] {
                let outcome = visit(&entry);
                match outcome {
                    Ok(done) => {
                        assert(done == ());
                    },
                    Err(error) => {
                        return Err(error);
                    },
                }
            }
            index = index + 1;
        }
        Ok(())
    }

    /// Replaces every entry's value by what `visit` makes of it. Keys, and so
    /// the order of the queue, are kept.
    pub fn for_each_mut<F: Fn(T) -> T>(&mut self, visit: F)
        requires
            old(self).wf(),
            forall|i: int|
                0 <= i < old(self)@.len() ==> call_requires(visit, ((#[trigger] old(self)@[i]).value,)),
        ensures
            final(self).wf(),
            final(self)@.len() == old(self)@.len(),
            forall|i: int|
                #![trigger final(self)@[i]]
                0 <= i < old(self)@.len() ==> final(self)@[i].key == old(self)@[i].key
                    && call_ensures(visit, (old(self)@[i].value,), final(self)@[i].value),
    {
        let ghost before = self@;
        let mut index: usize = 0;
        while index < self.len
            invariant
                index <= self.len <= N,
                self.len == old(self).len,
                before == old(self)@,
                old(self).wf(),
                self.shape(),
                forall|i: int|
                    0 <= i < before.len() ==> call_requires(visit, ((#[trigger] before[i]).value,)),
                forall|i: int|
                    #![trigger self.entries@[i]]
                    0 <= i < index ==> self.entries@[i]->0.key == before[i].key && call_ensures(
                        visit,
                        (before[i].value,),
                        self.entries@[i]->0.value,
                    ),
                forall|i: int|
                    index <= i < N ==> (#[trigger] self.entries@[i]) == old(self).entries@[i],
            decreases self.len - index,
        {
            assert(before[index as int] == old(self).entries@[index as int]->0);
            if let Some(entry) = self.entries[index] {
                let value = visit(entry.value);
                self.entries[index] = Some(Scheduled { key: entry.key, value });
            }
            index = index + 1;
        }
        proof {
            assert forall|i: int| 0 <= i < self@.len() implies (#[trigger] self@[i]).key
                == before[i].key && call_ensures(visit, (before[i].value,), self@[i].value) by {
                assert(self@[i] == self.entries@[i]->0);
            }
            assert forall|i: int, j: int|
                #![trigger self@[i], self@[j]]
                0 <= i < j < self@.len() implies key_lt(self@[i].key, self@[j].key) by {
                assert(key_lt(before[i].key, before[j].key));
            }
        }
    }
}

/// A queue takes an entry exactly if there is room and no other entry has its key. It
/// then holds that entry besides all the others, each once, in the order of their keys.
pub proof fn entries_join_in_order<T: Copy, const N: usize>(
    queue: &mut ChronologicalQueue<T, N>,
    entry: Scheduled<T>,
    verdict: Result<(), QueueError>,
    other: Scheduled<T>,
)
    requires
        old(queue).wf(),
        call_ensures(ChronologicalQueue::<T, N>::preflight_push, (&*old(queue), &entry), verdict),
        verdict is Ok ==> call_ensures(
            ChronologicalQueue::<T, N>::push_prevalidated,
            (queue, entry),
            (),
        ),
    ensures
        ({
            let before = old(queue)@;
            let after = final(queue)@;
            let taken = exists|i: int| 0 <= i < before.len() && (#[trigger] before[i]).key == entry.key;
            &&& verdict is Ok <==> before.len() < N && !taken
            &&& before.len() == N ==> verdict == Err::<(), QueueError>(QueueError::Capacity)
            &&& before.len() < N && taken ==> verdict == Err::<(), QueueError>(
                QueueError::DuplicateKey,
            )
            &&& verdict is Ok ==> {
                &&& after.len() == before.len() + 1
                &&& after.contains(other) <==> before.contains(other) || other == entry
                &&& forall|i: int, j: int|
                    #![trigger after[i], after[j]]
                    0 <= i < j < after.len() ==> after[i].key.time.ns <= after[j].key.time.ns
                &&& forall|i: int, j: int|
                    #![trigger after[i], after[j]]
                    0 <= i < j < after.len() && after[i].key.time == after[j].key.time
                        ==> after[i].key.class <= after[j].key.class
                &&& forall|i: int, j: int|
                    #![trigger after[i], after[j]]
                    0 <= i < j < after.len() && after[i].key.time == after[j].key.time
                        && after[i].key.class == after[j].key.class ==> after[i].key.source
                        <= after[j].key.source
                &&& forall|i: int, j: int|
                    #![trigger after[i], after[j]]
                    0 <= i < j < after.len() && after[i].key.time == after[j].key.time
                        && after[i].key.class == after[j].key.class && after[i].key.source
                        == after[j].key.source ==> after[i].key.sequence < after[j].key.sequence
            }
        }),
{
    old(queue).wf_facts();
    if verdict is Ok {
        let before = old(queue)@;
        let after = final(queue)@;
        insertion_keeps_order(before, entry);
        let r = rank(before, entry.key) as int;
        assert(after[r] == entry);
        if before.contains(other) {
            let i = choose|i: int| 0 <= i < before.len() && before[i] == other;
            if i < r {
                assert(after[i] == other);
            } else {
                assert(after[i + 1] == other);
            }
        }
        if after.contains(other) {
            let i = choose|i: int| 0 <= i < after.len() && after[i] == other;
            if i < r {
                assert(before[i] == other);
            } else if i > r {
                assert(before[i - 1] == other);
            }
        }
        assert forall|i: int, j: int|
            #![trigger after[i], after[j]]
            0 <= i < j < after.len() implies key_lt(after[i].key, after[j].key) by {}
    }
}

/// The first entry is the one that comes out, and it is in front of all the others.
pub proof fn first_entry_comes_out<T: Copy, const N: usize>(
    queue: &mut ChronologicalQueue<T, N>,
    seen: Option<&Scheduled<T>>,
    out: Option<Scheduled<T>>,
)
    requires
        old(queue).wf(),
        call_ensures(ChronologicalQueue::<T, N>::first, (&*old(queue),), seen),
        call_ensures(ChronologicalQueue::<T, N>::pop_first, (queue,), out),
    ensures
        seen is None <==> old(queue)@.len() == 0,
        out is None <==> old(queue)@.len() == 0,
        out matches Some(entry) ==> {
            &&& seen == Some(&entry)
            &&& old(queue)@ == seq![entry] + final(queue)@
            &&& forall|i: int|
                0 <= i < final(queue)@.len() ==> entry.key.time.ns <= (
                #[trigger] final(queue)@[i]).key.time.ns
        },
        out is None ==> final(queue)@ == old(queue)@,
{
    old(queue).wf_facts();
    let before = old(queue)@;
    if before.len() > 0 {
        assert(before =~= seq![before[0]] + final(queue)@);
        assert forall|i: int| 0 <= i < final(queue)@.len() implies before[0].key.time.ns <= (
        #[trigger] final(queue)@[i]).key.time.ns by {
            assert(final(queue)@[i] == before[i + 1]);
            assert(key_lt(before[0].key, before[i + 1].key));
        }
    }
}

/// Replacing the values keeps every key where it is.
pub proof fn values_change_under_their_keys<T: Copy, F: Fn(T) -> T, const N: usize>(
    queue: &mut ChronologicalQueue<T, N>,
    visit: F,
    i: int,
)
    requires
        call_ensures(ChronologicalQueue::<T, N>::for_each_mut::<F>, (queue, visit), ()),
        0 <= i < old(queue)@.len(),
    ensures
        final(queue)@.len() == old(queue)@.len(),
        final(queue)@[i].key == old(queue)@[i].key,
        call_ensures(visit, (old(queue)@[i].value,), final(queue)@[i].value),
{
}

} // verus!
