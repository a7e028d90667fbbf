//! The deterministic order in which scheduled observations are fused.
use vstd::prelude::*;

use crate::time::SessionTime;

verus! {

/// Position of one observation in the fusion order. Keys are compared by time
/// first; `class`, `source` and `sequence` make the order total within one
/// epoch. Clock and control changes precede inertial propagation, which
/// precedes GNSS and derived constraints.
#[derive(Clone, Copy, Debug, PartialEq, Eq, Ord, Structural)]
pub struct OrderKey {
    pub time: SessionTime,
    pub class: u8,
    pub source: u32,
    pub sequence: u64,
}

/// The strict lexicographic order on keys.
pub open spec fn key_lt(a: OrderKey, b: OrderKey) -> bool {
    ||| a.time.ns < b.time.ns
    ||| a.time.ns == b.time.ns && a.class < b.class
    ||| a.time.ns == b.time.ns && a.class == b.class && a.source < b.source
    ||| a.time.ns == b.time.ns && a.class == b.class && a.source == b.source && a.sequence
        < b.sequence
}

impl OrderKey {
    /// Whether `self` is fused strictly before `other`.
    pub fn precedes(&self, other: &Self) -> (r: bool)
        ensures
            r == key_lt(*self, *other),
    {
        if self.time.ns != other.time.ns {
            self.time.ns < other.time.ns
        } else if self.class != other.class {
            self.class < other.class
        } else if self.source != other.source {
            self.source < other.source
        } else {
            self.sequence < other.sequence
        }
    }
}

impl PartialOrd for OrderKey {
    fn partial_cmp(&self, other: &Self) -> (r: Option<core::cmp::Ordering>) {
        if self.precedes(other) {
            Some(core::cmp::Ordering::Less)
        } else if other.precedes(self) {
            Some(core::cmp::Ordering::Greater)
        } else {
            Some(core::cmp::Ordering::Equal)
        }
    }
}

impl vstd::std_specs::cmp::PartialOrdSpecImpl for OrderKey {
    open spec fn obeys_partial_cmp_spec() -> bool {
        true
    }

    open spec fn partial_cmp_spec(&self, other: &Self) -> Option<core::cmp::Ordering> {
        if key_lt(*self, *other) {
            Some(core::cmp::Ordering::Less)
        } else if key_lt(*other, *self) {
            Some(core::cmp::Ordering::Greater)
        } else {
            Some(core::cmp::Ordering::Equal)
        }
    }
}

/// The order on keys is a strict total order: irreflexive, transitive, and any
/// two distinct keys are comparable.
pub proof fn key_order_is_total(a: OrderKey, b: OrderKey, c: OrderKey)
    ensures
        !key_lt(a, a),
        key_lt(a, b) && key_lt(b, c) ==> key_lt(a, c),
        a != b ==> key_lt(a, b) || key_lt(b, a),
        !(key_lt(a, b) && key_lt(b, a)),
{
    if !key_lt(a, b) && !key_lt(b, a) {
        assert(a.time == b.time);
        assert(a == b);
    }
}

/// A key at a later time never precedes a key at an earlier time.
pub proof fn key_order_follows_time(a: OrderKey, b: OrderKey)
    ensures
        key_lt(a, b) ==> a.time.ns <= b.time.ns,
        a.time.ns < b.time.ns ==> key_lt(a, b),
{
}

/// Of two keys at most one comes first, and none does only where they are the same.
/// Time decides before everything else, then the class, then the source, then the
/// sequence.
pub proof fn keys_are_ordered_by_their_parts(
    a: OrderKey,
    b: OrderKey,
    forward: bool,
    backward: bool,
)
    requires
        call_ensures(OrderKey::precedes, (&a, &b), forward),
        call_ensures(OrderKey::precedes, (&b, &a), backward),
    ensures
        !(forward && backward),
        !forward && !backward <==> a == b,
        a.time.ns < b.time.ns ==> forward,
        a.time == b.time && a.class < b.class ==> forward,
        a.time == b.time && a.class == b.class && a.source < b.source ==> forward,
        a.time == b.time && a.class == b.class && a.source == b.source && a.sequence < b.sequence
            ==> forward,
{
    if !forward && !backward {
        assert(a.time == b.time);
    }
}

} // verus!
