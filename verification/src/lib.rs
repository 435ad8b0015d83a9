//! Core of a tile-based 2D platformer: per-tick physics integration,
//! merging of adjacent static tiles into composite collision spans, and
//! directional resolution of the player box against those spans.
//!
//! All geometry is carried in fixed-point integers so that every step of
//! the pipeline can be verified exactly:
//! - positions are in millionths of a world unit (`i64`),
//! - velocities are in thousandths of a world unit per second (`i64`),
//! - elapsed time is in whole milliseconds (`i64`).
//! With these scales, `position + velocity * dt` lands exactly on the
//! position scale and no division is ever needed.

pub mod compositor;
pub mod input;
pub mod integrator;
pub mod layout;
pub mod resolver;
pub mod tick;
pub mod world;
