//! Core simulation of a day/night survival game.
//!
//! The day phase is a planning step: a persistent economy of "rest" is spent
//! on upgrades that tune the player's combat stats and the target sleep
//! duration. The night phase is a timed wave-based encounter: a scheduler
//! activates enemy spawners on a fixed timetable, spawners materialize
//! pursuing enemies, collisions resolve into kills or player damage, and a
//! clock decides when the night ends. Rendering, physics integration and
//! asset loading are external collaborators; this crate owns the temporal
//! logic, the numeric tuning and the meta state machine.
//!
//! All world quantities are fixed-point integers in milli-units (one unit of
//! distance is 1000, one second is 1000 milliseconds), so every rule is exact.

pub mod actors;
pub mod clock;
pub mod combat;
pub mod economy;
pub mod math;
pub mod motion;
pub mod player;
pub mod pursuit;
mod rng;
pub mod session;
pub mod spawner;
pub mod timed;
pub mod waves;
