//! What a frame raises for others to act on: the end of a run, and the sound
//! effects to play.

use vstd::prelude::*;

verus! {

/// Raised when the player is destroyed. Carries the score at that moment.
#[derive(Clone, Copy, Debug, PartialEq, Eq, Structural)]
pub struct GameOver(pub u32);

/// A sound effect by name. The game only says which effect to play.
#[derive(Clone, Copy, Debug, PartialEq, Eq, Structural)]
pub enum SoundEffect {
    /// An enemy bounced off a wall; the first of two sounds for it.
    PluckLow,
    /// An enemy bounced off a wall; the second of two sounds for it.
    PluckHigh,
    /// An enemy destroyed the player.
    Explosion,
    /// The player collected a star.
    Pickup,
}

} // verus!
