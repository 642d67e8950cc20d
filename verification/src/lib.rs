//! Host-side core of a progressive path tracer: camera ray generation,
//! scene encoding with material deduplication, the ping-pong multi-bounce
//! ray state machine, and the per-sample accumulation/resize lifecycle.
//!
//! All geometry uses a deterministic Q16.16 fixed-point scalar, so every
//! derived quantity is an exact function of the inputs; the contracts pin
//! the results down to the bit.

pub mod camera;
pub mod error;
pub mod fixed;
pub mod image;
pub mod ray;
pub mod rng;
pub mod scene;
pub mod trace;
pub mod tracer;
pub mod vec3;
