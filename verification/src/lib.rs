//! Core logic of a bouncing-ball room demo: fixed-point vector math for
//! elastic reflection and Euler integration, the bookkeeping that ties
//! collision handles to renderable entities, and the per-frame decision
//! rules for responding to contact events.
//!
//! All coordinates, velocities and durations are fixed-point `i64` values
//! in ticks of one thousandth of a world unit (or of a second). The host
//! loop converts to and from the collision library's floating-point types
//! at the edge.


pub mod fixed;
pub mod motion;
pub mod registry;
pub mod response;
pub mod scene;
pub mod vec3;
