//! The keyboard as the game sees it: which of its keys are held, and which
//! went down since the last frame.

use vstd::prelude::*;

verus! {

/// One flag for each key that the game knows.
#[derive(Clone, Copy, Debug, PartialEq, Eq, Structural)]
pub struct Keys {
    pub left: bool,
    pub right: bool,
    pub down: bool,
    pub up: bool,
    pub a: bool,
    pub d: bool,
    pub s: bool,
    pub w: bool,
    pub escape: bool,
}

/// The state of the keyboard in one frame.
#[derive(Clone, Copy, Debug, PartialEq, Eq, Structural)]
pub struct Input {
    /// The keys that are held down.
    pub pressed: Keys,
    /// The keys that went down since the last frame.
    pub just_pressed: Keys,
}

/// The movement keys that are held down, whichever of its two keys asks for a
/// direction.
#[derive(Clone, Copy, Debug, PartialEq, Eq, Structural)]
pub struct MovementKeys {
    pub left: bool,
    pub right: bool,
    pub down: bool,
    pub up: bool,
}

impl Keys {
    /// No key.
    pub open spec fn spec_none() -> Keys {
        Keys {
            left: false,
            right: false,
            down: false,
            up: false,
            a: false,
            d: false,
            s: false,
            w: false,
            escape: false,
        }
    }

    #[verifier::when_used_as_spec(spec_none)]
    pub fn none() -> (keys: Keys)
        ensures
            keys == Keys::spec_none(),
    {
        Keys {
            left: false,
            right: false,
            down: false,
            up: false,
            a: false,
            d: false,
            s: false,
            w: false,
            escape: false,
        }
    }
}

impl Input {
    /// The movement that the held keys ask for: an arrow key and the letter
    /// beside it ask for the same direction.
    pub open spec fn spec_movement(&self) -> MovementKeys {
        MovementKeys {
            left: self.pressed.left || self.pressed.a,
            right: self.pressed.right || self.pressed.d,
            down: self.pressed.down || self.pressed.s,
            up: self.pressed.up || self.pressed.w,
        }
    }

    #[verifier::when_used_as_spec(spec_movement)]
    pub fn movement(&self) -> (keys: MovementKeys)
        ensures
            keys == self.spec_movement(),
    {
        MovementKeys {
            left: self.pressed.left || self.pressed.a,
            right: self.pressed.right || self.pressed.d,
            down: self.pressed.down || self.pressed.s,
            up: self.pressed.up || self.pressed.w,
        }
    }
}

} // verus!
