//! The arrow keys and the one-slot latch that holds a pending turn.

use vstd::prelude::*;
use crate::direction::Direction;
use crate::game::Game;

verus! {

/// Which arrow keys are held down at the moment of a reading.
#[derive(Debug, Clone, Copy, PartialEq, Eq, Structural)]
pub struct Keys {
    pub left: bool,
    pub right: bool,
    pub up: bool,
    pub down: bool,
}

impl Keys {
    /// The direction that the keys ask for: that of the first held key in the
    /// order left, right, up, down, and `current` when none is held.
    pub open spec fn spec_candidate(&self, current: Direction) -> Direction {
        if self.left {
            Direction::Left
        } else if self.right {
            Direction::Right
        } else if self.up {
            Direction::Up
        } else if self.down {
            Direction::Down
        } else {
            current
        }
    }

    /// The direction that the keys ask for: that of the first held key in the
    /// order left, right, up, down, and `current` when none is held.
    #[verifier::when_used_as_spec(spec_candidate)]
    pub fn candidate(&self, current: Direction) -> (d: Direction)
        ensures
            d == self.spec_candidate(current),
    {
        if self.left {
            Direction::Left
        } else if self.right {
            Direction::Right
        } else if self.up {
            Direction::Up
        } else if self.down {
            Direction::Down
        } else {
            current
        }
    }
}

impl Game {
    /// Reads the keys and latches a turn for the next movement step.
    ///
    /// The turn is taken only while the latch is empty, and only if it is
    /// neither the head's direction nor its reverse. Without a snake nothing
    /// is latched.
    pub fn snake_movement_input(&mut self, keys: Keys)
        ensures
            final(self)@ == old(self)@.latched(keys),
            old(self)@.wf() ==> final(self)@.wf(),
    {
        if self.body.len() > 0 {
            let dir = keys.candidate(self.direction);
            if dir != self.direction.opposite() && dir != self.direction
                && self.last_input.is_none() {
                self.last_input = Some(dir);
            }
        }
    }
}

} // verus!
