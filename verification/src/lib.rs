//! An articulated rigid-body chain: a rooted tree of capsule links joined by
//! constrained joints with per-axis locks, angular limits and optional motors,
//! together with the per-tick inspection pass that re-normalizes joint frames
//! and emits a diagnostic ray.
//!
//! Scalar configuration is fixed-point: lengths, anchors and gains are whole
//! thousandths of a scene unit, angles are whole degrees.  The physics engine
//! that solves the chain is an external collaborator reached only through
//! opaque handles; everything here works on the library's own model of the
//! structure.

pub mod chain;
pub mod inspect;
pub mod jointspec;
pub mod multibody;
pub mod units;
