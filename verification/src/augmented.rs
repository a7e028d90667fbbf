//! Coordinates of the augmented error state: navigation errors, shared
//! parameters, the held inertial sample, and the gap that is being bridged.
use vstd::prelude::*;

use crate::payload::Payload;

verus! {

/// Navigation error coordinates.
pub const NAV_DIM: usize = 15;

/// Coordinates of one held sample, and of one gap.
pub const BIAS_DIM: usize = 6;

/// First shared parameter.
pub const CONSIDER_START: usize = 15;

/// The block of the joint covariance that holds one entry, and the entry's
/// coordinates in that block. Blocks are stored once; nuisance errors are
/// mutually independent.
#[derive(Clone, Copy, Debug, PartialEq, Eq, Structural)]
pub enum JointBlock {
    Navigation { row: usize, column: usize },
    NavigationConsider { row: usize, column: usize },
    NavigationSample { row: usize, column: usize },
    NavigationGap { row: usize, column: usize },
    Consider { row: usize, column: usize },
    Sample { row: usize, column: usize },
    Gap { row: usize, column: usize },
    Independent,
}

/// The group of one augmented coordinate, and its number within the group.
#[derive(Clone, Copy, Debug, PartialEq, Eq, Structural)]
pub enum Axis {
    Navigation(usize),
    Consider(usize),
    Sample(usize),
    Gap(usize),
    Outside,
}

pub open spec fn sample_start<P: Payload>() -> int {
    CONSIDER_START + P::MAX_CONSIDER
}

pub open spec fn gap_start<P: Payload>() -> int {
    sample_start::<P>() + BIAS_DIM
}

/// Number of augmented coordinates.
pub open spec fn augmented_dimension<P: Payload>() -> int {
    gap_start::<P>() + BIAS_DIM
}

/// The group that `axis` belongs to.
pub open spec fn axis_group<P: Payload>(axis: int) -> Axis {
    if axis < NAV_DIM {
        Axis::Navigation(axis as usize)
    } else if axis < sample_start::<P>() {
        Axis::Consider((axis - CONSIDER_START) as usize)
    } else if axis < gap_start::<P>() {
        Axis::Sample((axis - sample_start::<P>()) as usize)
    } else if axis < augmented_dimension::<P>() {
        Axis::Gap((axis - gap_start::<P>()) as usize)
    } else {
        Axis::Outside
    }
}

pub fn classify_axis<P: Payload>(axis: usize) -> (group: Axis)
    ensures
        group == axis_group::<P>(axis as int),
{
    if axis < NAV_DIM {
        return Axis::Navigation(axis);
    }
    let shared: usize = axis - CONSIDER_START;
    if shared < P::MAX_CONSIDER {
        return Axis::Consider(shared);
    }
    let sample: usize = shared - P::MAX_CONSIDER;
    if sample < BIAS_DIM {
        return Axis::Sample(sample);
    }
    let gap: usize = sample - BIAS_DIM;
    if gap < BIAS_DIM {
        return Axis::Gap(gap);
    }
    Axis::Outside
}

/// Whether `axis` is a shared parameter beyond the `active` ones.
pub fn inactive_consider<P: Payload>(axis: usize, active: usize) -> (inactive: bool)
    ensures
        inactive == (CONSIDER_START + active <= axis < sample_start::<P>()),
{
    match classify_axis::<P>(axis) {
        Axis::Consider(shared) => shared >= active,
        _ => false,
    }
}

/// The block of an entry above the diagonal, by the groups of its coordinates.
pub open spec fn block_of(row: Axis, column: Axis) -> JointBlock {
    match (row, column) {
        (Axis::Navigation(row), Axis::Navigation(column)) => JointBlock::Navigation { row, column },
        (Axis::Navigation(row), Axis::Consider(column)) => JointBlock::NavigationConsider {
            row,
            column,
        },
        (Axis::Navigation(row), Axis::Sample(column)) => JointBlock::NavigationSample {
            row,
            column,
        },
        (Axis::Navigation(row), Axis::Gap(column)) => JointBlock::NavigationGap { row, column },
        (Axis::Consider(row), Axis::Consider(column)) => JointBlock::Consider { row, column },
        (Axis::Sample(row), Axis::Sample(column)) => JointBlock::Sample { row, column },
        (Axis::Gap(row), Axis::Gap(column)) => JointBlock::Gap { row, column },
        _ => JointBlock::Independent,
    }
}

/// The block of any entry: the covariance is symmetric, so an entry below the
/// diagonal is stored above it.
pub open spec fn joint_block_of<P: Payload>(row: int, column: int) -> JointBlock {
    if row > column {
        block_of(axis_group::<P>(column), axis_group::<P>(row))
    } else {
        block_of(axis_group::<P>(row), axis_group::<P>(column))
    }
}

pub fn joint_block<P: Payload>(row: usize, column: usize) -> (block: JointBlock)
    ensures
        block == joint_block_of::<P>(row as int, column as int),
{
    let (first, second) = if row > column {
        (column, row)
    } else {
        (row, column)
    };
    match (classify_axis::<P>(first), classify_axis::<P>(second)) {
        (Axis::Navigation(row), Axis::Navigation(column)) => JointBlock::Navigation { row, column },
        (Axis::Navigation(row), Axis::Consider(column)) => JointBlock::NavigationConsider {
            row,
            column,
        },
        (Axis::Navigation(row), Axis::Sample(column)) => JointBlock::NavigationSample {
            row,
            column,
        },
        (Axis::Navigation(row), Axis::Gap(column)) => JointBlock::NavigationGap { row, column },
        (Axis::Consider(row), Axis::Consider(column)) => JointBlock::Consider { row, column },
        (Axis::Sample(row), Axis::Sample(column)) => JointBlock::Sample { row, column },
        (Axis::Gap(row), Axis::Gap(column)) => JointBlock::Gap { row, column },
        _ => JointBlock::Independent,
    }
}

/// Whether the error at `row` is carried unchanged to the next node: shared
/// parameters always, a sample or a gap only while it lasts.
pub fn is_retained<P: Payload>(row: usize, retain_sample: bool, retain_gap: bool) -> (retained:
    bool)
    ensures
        retained == match axis_group::<P>(row as int) {
            Axis::Consider(_) => true,
            Axis::Sample(_) => retain_sample,
            Axis::Gap(_) => retain_gap,
            _ => false,
        },
{
    match classify_axis::<P>(row) {
        Axis::Consider(_) => true,
        Axis::Sample(_) => retain_sample,
        Axis::Gap(_) => retain_gap,
        _ => false,
    }
}

/// The joint covariance is symmetric by construction.
pub proof fn joint_block_is_symmetric<P: Payload>(row: int, column: int)
    ensures
        joint_block_of::<P>(row, column) == joint_block_of::<P>(column, row),
{
}

/// Every coordinate below the augmented dimension has its own place in exactly
/// one group.
pub proof fn axes_are_partitioned<P: Payload>(a: usize, b: usize)
    requires
        a < augmented_dimension::<P>(),
        b < augmented_dimension::<P>(),
    ensures
        axis_group::<P>(a as int) != Axis::Outside,
        axis_group::<P>(a as int) == axis_group::<P>(b as int) ==> a == b,
{
}

/// The four groups follow each other without holes: fifteen navigation errors, the
/// shared parameters, six errors of the held sample and six of the gap. Each
/// coordinate is found at its distance from the start of its group.
pub proof fn groups_follow_each_other<P: Payload>(axis: usize, group: Axis)
    requires
        call_ensures(classify_axis::<P>, (axis,), group),
    ensures
        group matches Axis::Navigation(i) ==> i == axis && i < 15,
        group matches Axis::Consider(i) ==> axis == 15 + i && i < P::MAX_CONSIDER,
        group matches Axis::Sample(i) ==> axis == 15 + P::MAX_CONSIDER + i && i < 6,
        group matches Axis::Gap(i) ==> axis == 15 + P::MAX_CONSIDER + 6 + i && i < 6,
        group is Outside <==> axis >= 15 + P::MAX_CONSIDER + 12,
{
}

/// Of the shared parameters exactly the first `active` ones are active; no other
/// coordinate is ever called inactive.
pub proof fn first_shared_parameters_are_active<P: Payload>(
    axis: usize,
    active: usize,
    group: Axis,
    inactive: bool,
)
    requires
        call_ensures(classify_axis::<P>, (axis,), group),
        call_ensures(inactive_consider::<P>, (axis, active), inactive),
    ensures
        group matches Axis::Consider(i) ==> inactive == (i >= active),
        group !is Consider ==> !inactive,
{
}

/// Between two nodes a shared parameter is always carried on, the held sample and the
/// gap exactly when asked to, and a navigation error never.
pub proof fn latents_are_carried_on_demand<P: Payload>(
    axis: usize,
    retain_sample: bool,
    retain_gap: bool,
    group: Axis,
    retained: bool,
)
    requires
        call_ensures(classify_axis::<P>, (axis,), group),
        call_ensures(is_retained::<P>, (axis, retain_sample, retain_gap), retained),
    ensures
        group is Navigation ==> !retained,
        group is Consider ==> retained,
        group is Sample ==> retained == retain_sample,
        group is Gap ==> retained == retain_gap,
        group is Outside ==> !retained,
{
}

/// An entry and its mirror image are stored in one place, under the coordinates of its
/// groups. Errors of different groups are independent unless one of them is a
/// navigation error.
pub proof fn entries_are_stored_once<P: Payload>(
    row: usize,
    column: usize,
    row_group: Axis,
    column_group: Axis,
    block: JointBlock,
    mirrored: JointBlock,
)
    requires
        call_ensures(classify_axis::<P>, (row,), row_group),
        call_ensures(classify_axis::<P>, (column,), column_group),
        call_ensures(joint_block::<P>, (row, column), block),
        call_ensures(joint_block::<P>, (column, row), mirrored),
    ensures
        block == mirrored,
        match (row_group, column_group) {
            (Axis::Navigation(i), Axis::Navigation(j)) => block == (JointBlock::Navigation {
                row: if i <= j {
                    i
                } else {
                    j
                },
                column: if i <= j {
                    j
                } else {
                    i
                },
            }),
            (Axis::Navigation(i), Axis::Consider(j)) => block == (JointBlock::NavigationConsider {
                row: i,
                column: j,
            }),
            (Axis::Navigation(i), Axis::Sample(j)) => block == (JointBlock::NavigationSample {
                row: i,
                column: j,
            }),
            (Axis::Navigation(i), Axis::Gap(j)) => block == (JointBlock::NavigationGap {
                row: i,
                column: j,
            }),
            (Axis::Consider(i), Axis::Consider(j)) => block is Consider && (block->Consider_row == i
                && block->Consider_column == j || block->Consider_row == j && block->Consider_column
                == i),
            (Axis::Sample(i), Axis::Sample(j)) => block is Sample && (block->Sample_row == i
                && block->Sample_column == j || block->Sample_row == j && block->Sample_column
                == i),
            (Axis::Gap(i), Axis::Gap(j)) => block is Gap && (block->Gap_row == i && block->Gap_column
                == j || block->Gap_row == j && block->Gap_column == i),
            (Axis::Navigation(_), Axis::Outside) => block is Independent,
            (_, Axis::Navigation(_)) => true,
            _ => block is Independent,
        },
{
}

} // verus!
