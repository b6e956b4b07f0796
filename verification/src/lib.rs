//! Per-frame contact resolution and entity lifecycle for an arena shooter.
//!
//! The library models game time in milliseconds and world geometry in
//! fixed-point milli-units (one thousandth of a world unit), so that every
//! rule of the game core is stated and proved over plain integers.

pub mod asteroid;
pub mod contact;
pub mod entity;
pub mod events;
pub mod laser;
pub mod player_ship;
mod rng;
pub mod timer;
pub mod world;

pub use timer::Timer;
