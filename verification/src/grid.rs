//! The arena and the cells in it.

use vstd::prelude::*;
use crate::direction::Direction;

verus! {

/// Number of columns of the arena.
pub const ARENA_WIDTH: u32 = 10;

/// Number of rows of the arena.
pub const ARENA_HEIGHT: u32 = 10;

/// A cell of the grid. Column `x` grows to the right, row `y` grows upwards.
#[derive(Debug, Clone, Copy, PartialEq, Eq, Structural)]
pub struct Position {
    pub x: i32,
    pub y: i32,
}

impl Position {
    /// Whether the cell lies inside the arena.
    pub open spec fn in_arena(&self) -> bool {
        0 <= self.x < ARENA_WIDTH && 0 <= self.y < ARENA_HEIGHT
    }

    /// Whether a step in any direction stays within the range of the
    /// coordinates' type.
    pub open spec fn can_step(&self) -> bool {
        i32::MIN < self.x < i32::MAX && i32::MIN < self.y < i32::MAX
    }

    /// The neighbouring cell one step away in direction `d`.
    pub open spec fn spec_step(&self, d: Direction) -> Position {
        Position { x: (self.x + d.dx()) as i32, y: (self.y + d.dy()) as i32 }
    }

    /// Whether the cell lies inside the arena.
    #[verifier::when_used_as_spec(in_arena)]
    pub fn is_in_arena(&self) -> (b: bool)
        ensures
            b == self.in_arena(),
    {
        0 <= self.x && self.x < ARENA_WIDTH as i32 && 0 <= self.y && self.y < ARENA_HEIGHT as i32
    }

    /// The neighbouring cell one step away in direction `d`.
    #[verifier::when_used_as_spec(spec_step)]
    pub fn step(&self, d: Direction) -> (p: Position)
        requires
            self.can_step(),
        ensures
            p == self.spec_step(d),
            p.x == self.x + d.dx(),
            p.y == self.y + d.dy(),
    {
        match d {
            Direction::Left => Position { x: self.x - 1, y: self.y },
            Direction::Right => Position { x: self.x + 1, y: self.y },
            Direction::Up => Position { x: self.x, y: self.y + 1 },
            Direction::Down => Position { x: self.x, y: self.y - 1 },
        }
    }
}

} // verus!
