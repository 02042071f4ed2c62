//! Core rules of a small arcade game: a player dodges enemies and collects
//! stars, and the run ends when an enemy touches the player.
//!
//! The library holds the state of a run in a `World` and changes it one stage
//! at a time: timers, movement, confinement to the viewport, bouncing,
//! collisions, scoring and spawning. `game::startup` builds the world of a new
//! run and `game::update` runs the stages of one frame in their order. Window,
//! keyboard, clock, drawing and sound are the caller's: the library is handed
//! plain values and hands plain values back.
//!
//! Lengths and directions are fixed-point integers (`geometry::ONE` units to
//! the pixel), and time is counted in nanoseconds.

pub mod enemy;
pub mod events;
pub mod game;
pub mod geometry;
pub mod input;
pub mod player;
pub mod random;
pub mod score;
pub mod star;
pub mod timer;
pub mod world;
