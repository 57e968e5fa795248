//! The movement step: one cell forward on every tick.

use vstd::prelude::*;
use crate::game::Game;

verus! {

impl Game {
    /// Whether the movement step can be made: the head, if there is one, is
    /// not at the end of the range of its coordinates.
    pub fn can_move(&self) -> (b: bool)
        ensures
            b == self@.can_move(),
    {
        if self.body.len() == 0 {
            true
        } else {
            let head = self.body[0];
            i32::MIN < head.x && head.x < i32::MAX && i32::MIN < head.y && head.y < i32::MAX
        }
    }

    /// Advances the snake by one cell and says whether that ends the game.
    ///
    /// A latched turn becomes the head's direction and the latch is emptied.
    /// The head enters the next cell in that direction, every other segment
    /// takes the cell that the segment before it held, and the cell that the
    /// last segment held is recorded for growth. The game ends if the head
    /// has left the arena or has entered a cell that the snake held before
    /// the step. Without a snake nothing changes and the game goes on.
    ///
    /// If the latched turn was in order, the head has not turned right round.
    pub fn snake_movement(&mut self) -> (game_over: bool)
        requires
            old(self)@.can_move(),
        ensures
            final(self)@ == old(self)@.moved(),
            game_over == old(self)@.crashes(),
            old(self)@.latch_valid() ==> final(self).direction != old(self).direction.opposite(),
    {
        if self.body.len() == 0 {
            return false;
        }
        if let Some(turn) = self.last_input {
            self.direction = turn;
            self.last_input = None;
        }
        let head = self.body[0].step(self.direction);
        let left_arena = !head.is_in_arena();
        let hit_self = self.occupies(head);
        let tail = self.body.pop();
        self.body.insert(0, head);
        self.tail_position = tail;
        left_arena || hit_self
    }
}

} // verus!
