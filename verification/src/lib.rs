//! Behavior core of a 2D platformer: per-entity finite-state machines for the
//! player, enemies and the exit portal, a frame-accurate sprite-animation
//! player, a collision-event router, a transient on-screen-marker queue, and a
//! level-grid spawn planner.
//!
//! Positions, velocities and radii are fixed-point integers in milli-units
//! (one world unit = 1000); times and durations are milliseconds. Physics
//! integration, rendering and audio are external collaborators: the core reads
//! fresh positions/velocities and this tick's contact-begin events, and
//! produces state changes, animation assignments and fire-and-forget cue
//! requests.
pub mod anim;
pub mod enemy;
pub mod events;
pub mod geom;
pub mod level;
pub mod marker;
pub mod player;
pub mod portal;
mod rng;
pub mod treasure;
pub mod world;
