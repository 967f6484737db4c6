//! Simulation core of a small real-time farming sandbox.
//!
//! Entities live in a parent-relative spatial hierarchy; a pointer-driven
//! hover/selection layer feeds a per-plot crop-growth state machine, which
//! hands harvested crops to a deferred-effect pipeline that animates the
//! transfer into an inventory ledger. Rendering and raw input are left to an
//! unverified front end, which talks to this crate in plain values: integer
//! pixel coordinates and integer milliseconds.

pub mod crops;
pub mod effects;
pub mod geom;
pub mod hierarchy;
pub mod mouse;
pub mod plots;
pub mod select;
pub mod sim;
pub mod storage;
pub mod world;
