//! One tick of the simulation: every step once, in its fixed order.

use vstd::prelude::*;
use crate::game::Game;
use crate::input::Keys;

verus! {

/// The time from one tick to the next, in milliseconds.
pub const MOVEMENT_INTERVAL_MS: u64 = 350;

/// The time from one run of the food spawner to the next, in milliseconds.
/// The spawner runs on a clock of its own, beside the ticks.
pub const FOOD_INTERVAL_MS: u64 = 700;

/// The signals that the steps of one tick have raised.
#[derive(Debug, Clone, Copy, PartialEq, Eq, Structural)]
pub struct Events {
    /// The head was on the food: the snake has eaten and grown.
    pub growth: bool,
    /// The movement step ended the game: the snake has been replaced.
    pub game_over: bool,
}

impl Game {
    /// Advances the simulation by one tick: the input latch, the movement
    /// step, the eating check, growth and the game-over handler, in this
    /// order, each fed with the signal of the step before it.
    ///
    /// Unless the tick ends the game, the snake is no shorter after it than
    /// before, and the head has not turned right round if the latch was in
    /// order. The score goes up by one with the growth signal and stays
    /// without it. A state inside the arena stays inside the arena, and what
    /// holds of a game between its ticks holds after the tick as before it.
    pub fn tick(&mut self, keys: Keys) -> (events: Events)
        requires
            old(self)@.can_move(),
            old(self).score < usize::MAX,
        ensures
            final(self)@ == old(self)@.ticked(keys),
            events.game_over == old(self)@.latched(keys).crashes(),
            events.growth == old(self)@.latched(keys).moved().head_on_food(),
            !events.game_over ==> final(self).body@.len() >= old(self).body@.len(),
            !events.game_over && old(self)@.latch_valid() ==> final(self).direction != old(
                self,
            ).direction.opposite(),
            events.growth ==> final(self).score == old(self).score + 1,
            !events.growth ==> final(self).score == old(self).score,
            old(self)@.in_arena() ==> final(self)@.in_arena(),
            old(self)@.wf() ==> final(self)@.wf(),
    {
        self.snake_movement_input(keys);
        let game_over = self.snake_movement();
        let growth = self.snake_eating();
        self.snake_growth(growth);
        self.game_over(game_over);
        Events { growth, game_over }
    }
}

} // verus!
