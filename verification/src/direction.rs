//! The four directions in which the snake's head can face.

use vstd::prelude::*;

verus! {

/// A facing of the snake's head.
#[derive(Debug, PartialEq, Eq, Clone, Copy, Structural)]
pub enum Direction {
    Left,
    Up,
    Right,
    Down,
}

impl Direction {
    /// The direction that points the other way.
    pub open spec fn spec_opposite(&self) -> Direction {
        match *self {
            Direction::Left => Direction::Right,
            Direction::Right => Direction::Left,
            Direction::Up => Direction::Down,
            Direction::Down => Direction::Up,
        }
    }

    /// The change of the x coordinate made by one step in this direction.
    pub open spec fn dx(&self) -> int {
        match *self {
            Direction::Left => -1,
            Direction::Right => 1,
            Direction::Up => 0,
            Direction::Down => 0,
        }
    }

    /// The change of the y coordinate made by one step in this direction.
    pub open spec fn dy(&self) -> int {
        match *self {
            Direction::Left => 0,
            Direction::Right => 0,
            Direction::Up => 1,
            Direction::Down => -1,
        }
    }

    /// The direction that points the other way.
    #[verifier::when_used_as_spec(spec_opposite)]
    pub fn opposite(&self) -> (r: Direction)
        ensures
            r == self.spec_opposite(),
    {
        match self {
            Direction::Left => Direction::Right,
            Direction::Right => Direction::Left,
            Direction::Up => Direction::Down,
            Direction::Down => Direction::Up,
        }
    }
}

/// Reversing twice gives the direction back, a reversal never leaves the
/// direction as it was, and it negates the direction vector.
pub proof fn opposite_is_a_reversal(d: Direction)
    ensures
        d.opposite().opposite() == d,
        d.opposite() != d,
        d.opposite().dx() == -d.dx(),
        d.opposite().dy() == -d.dy(),
{
}

} // verus!
