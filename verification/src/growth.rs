//! Eating the food and growing by a segment.

use vstd::prelude::*;
use crate::game::Game;

verus! {

impl Game {
    /// Removes the food if the head is on it, and says whether it was: the
    /// growth signal.
    pub fn snake_eating(&mut self) -> (growth: bool)
        ensures
            final(self)@ == old(self)@.fed(),
            growth == old(self)@.head_on_food(),
    {
        if self.body.len() > 0 {
            if let Some(food) = self.food {
                if food == self.body[0] {
                    self.food = None;
                    return true;
                }
            }
        }
        false
    }

    /// Whether growth can be made: a tail cell is recorded and the score is
    /// below the largest number that it can hold.
    pub fn can_grow(&self) -> (b: bool)
        ensures
            b == self@.can_grow(),
    {
        self.tail_position.is_some() && self.score < usize::MAX
    }

    /// Handles the growth signal of the eating check. With the signal the
    /// score goes up by one and a new last segment is put on the cell that
    /// the latest movement step recorded. Without it nothing changes.
    pub fn snake_growth(&mut self, growth: bool)
        requires
            growth ==> old(self)@.can_grow(),
        ensures
            growth ==> final(self)@ == old(self)@.grown(),
            !growth ==> final(self)@ == old(self)@,
    {
        if growth {
            if let Some(tail) = self.tail_position {
                self.score += 1;
                self.body.push(tail);
            }
        }
    }
}

} // verus!
