//! Verified bookkeeping of a two-dimensional ball simulation.
//!
//! The arithmetic of the bodies themselves is floating point and lives with the
//! program that drives the simulation. This library holds the decisions that
//! surround it: which passes a tick runs in each gravity mode, how a wall or
//! floor contact turns into reflections, damping and gravity, the order in
//! which body pairs are visited, the removal of bodies hit by a delete request,
//! and the collision tally.
mod bounce;
mod pairs;
mod roster;
mod schedule;
mod tally;

pub use bounce::{bounce_plan, Bounce};
pub use pairs::ordered_pairs;
pub use roster::remove_flagged;
pub use schedule::{tick_plan, GravityMode, TickPlan, VelocityPass};
pub use tally::{CollisionTally, REPORT_EVERY};
