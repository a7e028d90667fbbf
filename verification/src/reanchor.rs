//! When the fixed local navigation frame is moved.
use vstd::prelude::*;

use crate::error::ReanchorError;

verus! {

/// Requests a new frame once per excursion: after a trigger the position must
/// come back inside the rearm distance before the next one.
#[derive(Clone, Copy, Debug, PartialEq, Eq, Structural)]
pub struct ReanchorMonitor {
    pub armed: bool,
}

/// Where a position lies between the two distances of a policy.
#[derive(Clone, Copy, Debug, PartialEq, Eq, Structural)]
pub enum AnchorDistance {
    NotFinite,
    /// At or inside the rearm distance.
    Near,
    /// Between the two distances.
    Between,
    /// At or beyond the trigger distance.
    Far,
}

impl ReanchorMonitor {
    pub fn new(policy_is_valid: bool) -> (r: Result<Self, ReanchorError>)
        ensures
            r == (if policy_is_valid {
                Ok::<Self, ReanchorError>(ReanchorMonitor { armed: true })
            } else {
                Err(ReanchorError::InvalidPolicy)
            }),
    {
        if policy_is_valid {
            Ok(ReanchorMonitor { armed: true })
        } else {
            Err(ReanchorError::InvalidPolicy)
        }
    }

    /// Whether a new frame is due at `distance`.
    pub fn observe(&mut self, distance: AnchorDistance) -> (due: bool)
        ensures
            due == (old(self).armed && distance == AnchorDistance::Far),
            final(self).armed == (if due {
                false
            } else {
                old(self).armed || distance == AnchorDistance::Near
            }),
    {
        match distance {
            AnchorDistance::NotFinite => false,
            AnchorDistance::Far => {
                if self.armed {
                    self.armed = false;
                    return true;
                }
                false
            },
            AnchorDistance::Near => {
                self.armed = true;
                false
            },
            AnchorDistance::Between => false,
        }
    }
}

/// Whether the frame may change from one anchor to another: both must be valid
/// and generations must increase.
pub fn validate_anchor_change(
    old_anchor: Result<(), ReanchorError>,
    new_anchor: Result<(), ReanchorError>,
    old_generation: u32,
    new_generation: u32,
) -> (r: Result<(), ReanchorError>)
    ensures
        r == (if old_anchor is Err {
            old_anchor
        } else if new_anchor is Err {
            new_anchor
        } else if new_generation <= old_generation {
            Err::<(), ReanchorError>(ReanchorError::GenerationNotIncreasing)
        } else {
            Ok(())
        }),
{
    match old_anchor {
        Err(error) => {
            return Err(error);
        },
        Ok(_) => {},
    }
    match new_anchor {
        Err(error) => {
            return Err(error);
        },
        Ok(_) => {},
    }
    if new_generation <= old_generation {
        return Err(ReanchorError::GenerationNotIncreasing);
    }
    Ok(())
}

/// The monitor's state after a sequence of distances, newest last.
pub open spec fn armed_after(armed: bool, distances: Seq<AnchorDistance>) -> bool
    decreases distances.len(),
{
    if distances.len() == 0 {
        armed
    } else {
        let before = armed_after(armed, distances.drop_last());
        if before && distances.last() == AnchorDistance::Far {
            false
        } else {
            before || distances.last() == AnchorDistance::Near
        }
    }
}

/// After a trigger no further one follows, however long the excursion lasts,
/// until the position has come back inside the rearm distance.
pub proof fn one_request_per_excursion(distances: Seq<AnchorDistance>)
    requires
        forall|i: int| 0 <= i < distances.len() ==> distances[i] != AnchorDistance::Near,
    ensures
        !armed_after(false, distances),
    decreases distances.len(),
{
    if distances.len() > 0 {
        one_request_per_excursion(distances.drop_last());
        assert(distances.last() == distances[distances.len() - 1]);
    }
}

/// A frame is requested exactly when an armed monitor sees a position beyond the
/// trigger distance. The request disarms it, only a position inside the rearm distance
/// arms it again, and a position that is not finite changes nothing.
pub proof fn requests_come_from_armed_monitors(
    monitor: &mut ReanchorMonitor,
    distance: AnchorDistance,
    due: bool,
)
    requires
        call_ensures(ReanchorMonitor::observe, (monitor, distance), due),
    ensures
        old(monitor).armed && distance is Far ==> due && !final(monitor).armed,
        !old(monitor).armed ==> !due,
        distance !is Far ==> !due,
        distance is Near ==> final(monitor).armed,
        distance is Between || distance is NotFinite ==> final(monitor).armed == old(monitor).armed,
        !old(monitor).armed && distance is Far ==> !final(monitor).armed,
{
}

/// After a request a position that stays away is not requested again; coming back
/// makes the next excursion count.
pub proof fn next_excursion_is_requested(
    first: &mut ReanchorMonitor,
    second: &mut ReanchorMonitor,
    third: &mut ReanchorMonitor,
    between: AnchorDistance,
    second_due: bool,
    third_due: bool,
)
    requires
        call_ensures(ReanchorMonitor::observe, (first, AnchorDistance::Far), true),
        call_ensures(ReanchorMonitor::observe, (second, between), second_due),
        call_ensures(ReanchorMonitor::observe, (third, AnchorDistance::Far), third_due),
        *old(second) == *final(first),
        *old(third) == *final(second),
    ensures
        !second_due,
        third_due <==> between is Near,
{
}

/// A new monitor is armed, if its policy is valid.
pub proof fn monitors_begin_armed(
    policy_is_valid: bool,
    made: Result<ReanchorMonitor, ReanchorError>,
)
    requires
        call_ensures(ReanchorMonitor::new, (policy_is_valid,), made),
    ensures
        policy_is_valid ==> made is Ok && made->Ok_0.armed,
        !policy_is_valid ==> made == Err::<ReanchorMonitor, ReanchorError>(
            ReanchorError::InvalidPolicy,
        ),
{
}

/// A frame may replace another one exactly if both are valid and it is of a later
/// generation, so two frames never replace each other.
pub proof fn frames_are_replaced_in_order(
    old_anchor: Result<(), ReanchorError>,
    new_anchor: Result<(), ReanchorError>,
    old_generation: u32,
    new_generation: u32,
    forward: Result<(), ReanchorError>,
    backward: Result<(), ReanchorError>,
)
    requires
        call_ensures(
            validate_anchor_change,
            (old_anchor, new_anchor, old_generation, new_generation),
            forward,
        ),
        call_ensures(
            validate_anchor_change,
            (new_anchor, old_anchor, new_generation, old_generation),
            backward,
        ),
    ensures
        !(forward is Ok && backward is Ok),
        forward is Ok <==> old_anchor is Ok && new_anchor is Ok && old_generation < new_generation,
        old_anchor is Ok && new_anchor is Ok && old_generation < new_generation ==> backward
            == Err::<(), ReanchorError>(ReanchorError::GenerationNotIncreasing),
        old_anchor is Err ==> forward == old_anchor,
        old_anchor is Ok && new_anchor is Err ==> forward == new_anchor,
{
}

} // verus!
