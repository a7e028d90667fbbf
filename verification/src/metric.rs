//! Bounds of metric plans and of what one evaluation returns.
use vstd::prelude::*;

verus! {

/// Maximum definitions in one immutable metric plan.
pub const MAX_METRIC_DEFINITIONS: usize = 64;

/// Maximum ordered gates in one lap plan.
pub const MAX_LAP_GATES: usize = 16;

/// Maximum drag targets in one drag plan.
pub const MAX_DRAG_TARGETS: usize = 24;

/// Maximum activity distance splits in one activity plan.
pub const MAX_ACTIVITY_SPLITS: usize = 32;

/// Maximum results retained by an allocator-free evaluation.
pub const MAX_METRIC_RESULTS: usize = 192;

/// Hard maximum mutations returned by one live engine step.
pub const MAX_METRIC_MUTATIONS_PER_STEP: usize = 16;

} // verus!
