//! The food spawner.

use vstd::prelude::*;
use crate::game::Game;
use crate::grid::{Position, ARENA_HEIGHT, ARENA_WIDTH};
use crate::model::GameView;

verus! {

/// A random number from `rand::random`, which draws it from the generator
/// of the calling thread. Nothing is claimed of the number. The generator is
/// seeded from the operating system when a thread first uses it, and
/// `rand::random` panics if that fails.
#[verifier::external_body]
fn random_u32() -> u32 {
    rand::random::<u32>()
}

/// The number `r`, read as a fraction `r / 2^32` of the half-open unit
/// interval, scaled to the range from 0 up to `bound` and rounded down.
pub open spec fn scaled(r: u32, bound: u32) -> int {
    (r * bound) / 0x1_0000_0000
}

/// A scaled number is below its bound, and zero where the bound is zero.
pub proof fn scaled_is_below_bound(r: u32, bound: u32)
    ensures
        bound > 0 ==> 0 <= scaled(r, bound) < bound,
        bound == 0 ==> scaled(r, bound) == 0,
{
    if bound > 0 {
        assert(0 <= r * bound < 0x1_0000_0000 * bound) by (nonlinear_arith)
            requires
                0 <= r < 0x1_0000_0000,
                bound > 0,
        ;
        assert(0 <= (r * bound) / 0x1_0000_0000 < bound) by (nonlinear_arith)
            requires
                0 <= r * bound < 0x1_0000_0000 * bound,
        ;
    } else {
        assert(r * bound == 0) by (nonlinear_arith)
            requires
                bound == 0,
        ;
    }
}

/// Scales `r` to the range from 0 up to `bound`.
pub fn scale(r: u32, bound: u32) -> (c: u32)
    ensures
        c == scaled(r, bound),
        bound > 0 ==> c < bound,
{
    proof {
        scaled_is_below_bound(r, bound);
    }
    let product: u64 = (r as u64) * (bound as u64);
    (product / 0x1_0000_0000) as u32
}

/// The cell of the arena that two numbers pick: `rx` scaled to the columns
/// and `ry` scaled to the rows.
pub fn cell_of(rx: u32, ry: u32) -> (p: Position)
    ensures
        p.x == scaled(rx, ARENA_WIDTH),
        p.y == scaled(ry, ARENA_HEIGHT),
        p.in_arena(),
{
    Position { x: scale(rx, ARENA_WIDTH) as i32, y: scale(ry, ARENA_HEIGHT) as i32 }
}

/// A cell of the arena, picked at random.
pub fn random_cell() -> (p: Position)
    ensures
        p.in_arena(),
{
    let rx = random_u32();
    let ry = random_u32();
    cell_of(rx, ry)
}

impl Game {
    /// Puts food on the grid if there is none: on `first`, unless the snake
    /// holds that cell, and then on `second`, whatever holds it.
    pub fn place_food(&mut self, first: Position, second: Position)
        ensures
            final(self)@ == old(self)@.with_food(first, second),
            old(self)@.wf() ==> final(self)@.wf(),
    {
        if self.food.is_none() {
            if self.occupies(first) {
                self.food = Some(second);
            } else {
                self.food = Some(first);
            }
        }
    }

    /// Puts food on a random cell of the arena if there is none on the grid.
    /// A cell that the snake holds is given up for a second random cell, once;
    /// the second one is taken as it comes. Nothing but the food changes.
    pub fn spawn_food(&mut self)
        ensures
            exists|first: Position, second: Position|
                first.in_arena() && second.in_arena() && final(self)@ == old(
                    self,
                )@.with_food(first, second),
            old(self).food is Some ==> final(self)@ == old(self)@,
            old(self).food is None ==> (final(self).food matches Some(cell) && cell.in_arena()),
            final(self)@ == (GameView { food: final(self).food, ..old(self)@ }),
            old(self)@.wf() ==> final(self)@.wf(),
    {
        if self.food.is_none() {
            let first = random_cell();
            let second = if self.occupies(first) {
                random_cell()
            } else {
                first
            };
            self.place_food(first, second);
        } else {
            let corner = Position { x: 0, y: 0 };
            assert(self@ == old(self)@.with_food(corner, corner));
        }
    }
}

} // verus!
