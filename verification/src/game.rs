//! The state of a game and the steps that build it and tear it down.

use vstd::prelude::*;
use crate::direction::Direction;
use crate::grid::{Position, ARENA_HEIGHT, ARENA_WIDTH};
use crate::model::{initial_body, GameView};

verus! {

/// The whole state of the simulation.
///
/// A segment's index in `body` is its identity: the head is segment 0 and
/// segments are only ever added behind the last one.
#[derive(Debug, Clone, PartialEq, Eq)]
pub struct Game {
    /// The cells of the snake, head first.
    pub body: Vec<Position>,
    /// The way the head faces.
    pub direction: Direction,
    /// The latch: a turn waiting for the next movement step.
    pub last_input: Option<Direction>,
    /// The cell that the last segment left in the latest movement step.
    pub tail_position: Option<Position>,
    /// The food on the grid, if there is any.
    pub food: Option<Position>,
    /// The number of foods eaten.
    pub score: usize,
}

impl View for Game {
    type V = GameView;

    open spec fn view(&self) -> GameView {
        GameView {
            body: self.body@,
            direction: self.direction,
            last_input: self.last_input,
            tail_position: self.tail_position,
            food: self.food,
            score: self.score as nat,
        }
    }
}

/// The body of a new snake.
fn new_body() -> (body: Vec<Position>)
    ensures
        body@ == initial_body(),
{
    let x: i32 = (ARENA_WIDTH / 2) as i32;
    let y: i32 = (ARENA_HEIGHT / 2) as i32;
    let mut body: Vec<Position> = Vec::new();
    body.push(Position { x, y });
    body.push(Position { x, y: y - 1 });
    body
}

impl Game {
    /// A game at its start: a snake of two segments in the middle of the
    /// arena, facing up, and nothing else.
    pub fn new() -> (game: Game)
        ensures
            game@ == GameView::initial(),
            game@.wf(),
    {
        Game {
            body: new_body(),
            direction: Direction::Up,
            last_input: None,
            tail_position: None,
            food: None,
            score: 0,
        }
    }

    /// Replaces the snake by a new one of two segments in the middle of the
    /// arena, facing up. Nothing else changes.
    pub fn setup(&mut self)
        ensures
            final(self)@ == old(self)@.with_new_snake(),
            old(self)@.ready_for_snake() ==> final(self)@.wf(),
    {
        self.body = new_body();
        self.direction = Direction::Up;
    }

    /// Handles the game-over signal of a movement step. With the signal the
    /// food is removed and the snake is replaced by a new one; the score
    /// stays. Without it nothing changes.
    pub fn game_over(&mut self, signal: bool)
        ensures
            signal ==> final(self)@ == old(self)@.reset(),
            !signal ==> final(self)@ == old(self)@,
            signal && old(self)@.ready_for_snake() ==> final(self)@.wf(),
    {
        if signal {
            self.food = None;
            self.setup();
        }
    }

    /// Whether the snake holds the cell `p`.
    pub fn occupies(&self, p: Position) -> (b: bool)
        ensures
            b == self@.body.contains(p),
    {
        let mut i: usize = 0;
        while i < self.body.len()
            invariant
                i <= self.body.len(),
                forall|j: int| 0 <= j < i ==> self.body@[j] != p,
            decreases self.body.len() - i,
        {
            if self.body[i] == p {
                return true;
            }
            i += 1;
        }
        false
    }

    /// Whether every segment and the recorded tail cell lie inside the arena.
    pub fn in_arena(&self) -> (b: bool)
        ensures
            b == self@.in_arena(),
    {
        if let Some(t) = self.tail_position {
            if !t.is_in_arena() {
                return false;
            }
        }
        let mut i: usize = 0;
        while i < self.body.len()
            invariant
                i <= self.body.len(),
                self.tail_position matches Some(t) ==> t.in_arena(),
                forall|j: int| 0 <= j < i ==> (#[trigger] self.body@[j]).in_arena(),
            decreases self.body.len() - i,
        {
            if !self.body[i].is_in_arena() {
                assert(!self@.body[i as int].in_arena());
                return false;
            }
            i += 1;
        }
        true
    }
}

} // verus!
