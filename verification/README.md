# traj

The core of a live inertial and satellite navigation engine: observations are
scheduled by time, fused behind a fixed delay, and published as corrected
trajectory segments that join end to end.

- `src/` holds every decision of the engine, with contracts proved by Verus:
  the order of observations, the bounded queues and rings, which part of an
  inertial interval is integrated when, when a measurement may contribute, how
  the smoothing window is walked, what is published and what each step costs.
  Numbers that are floating point are carried through as opaque values of the
  `Payload` trait.
- `app/` computes those numbers with nalgebra: rotations, covariances, the
  filter update, the backward smoothing step and the alignment. It asks the
  library for the next piece of work, does the arithmetic and hands the result
  back.
- `tests/` drives the library with a one-dimensional payload.

Every queue, ring and plan has a fixed capacity, and running into one is an
error that the contract of the function names.
