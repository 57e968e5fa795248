//! The mathematical model of the simulation.
//!
//! A [`GameView`] is the state of a game with its body as a sequence and its
//! score as a natural number. Every step of the simulation is a function from
//! views to views here, and the executable steps are specified by them.

use vstd::prelude::*;
use crate::direction::Direction;
use crate::grid::{Position, ARENA_HEIGHT, ARENA_WIDTH};
use crate::input::Keys;

verus! {

/// The state of a game as a mathematical value.
#[verifier::ext_equal]
pub struct GameView {
    /// The cells of the snake, head first. A segment's index is its
    /// identity: segments are only ever added behind the last one.
    pub body: Seq<Position>,
    /// The way the head faces.
    pub direction: Direction,
    /// The latch: a turn waiting for the next movement step.
    pub last_input: Option<Direction>,
    /// The cell that the last segment left in the latest movement step.
    pub tail_position: Option<Position>,
    /// The food on the grid, if there is any.
    pub food: Option<Position>,
    /// The number of foods eaten.
    pub score: nat,
}

/// The cell in the middle of the arena, where a new snake's head is put.
pub open spec fn spawn_cell() -> Position {
    Position { x: (ARENA_WIDTH / 2) as i32, y: (ARENA_HEIGHT / 2) as i32 }
}

/// The body of a new snake: the head in the middle of the arena and one
/// segment below it.
pub open spec fn initial_body() -> Seq<Position> {
    seq![spawn_cell(), Position { x: spawn_cell().x, y: (spawn_cell().y - 1) as i32 }]
}

impl GameView {
    /// The state in which a game starts: a new snake facing up, no food, an
    /// empty latch, no recorded tail cell and a score of zero.
    pub open spec fn initial() -> GameView {
        GameView {
            body: initial_body(),
            direction: Direction::Up,
            last_input: None,
            tail_position: None,
            food: None,
            score: 0,
        }
    }

    /// Whether there is a snake, and so a head.
    pub open spec fn has_head(self) -> bool {
        self.body.len() > 0
    }

    /// The cell of the head.
    pub open spec fn head(self) -> Position
        recommends
            self.has_head(),
    {
        self.body[0]
    }

    /// Every segment and the recorded tail cell lie inside the arena.
    pub open spec fn in_arena(self) -> bool {
        &&& forall|i: int| 0 <= i < self.body.len() ==> (#[trigger] self.body[i]).in_arena()
        &&& self.tail_position matches Some(t) ==> t.in_arena()
    }

    /// A latched turn is neither the head's direction nor its reverse.
    pub open spec fn latch_valid(self) -> bool {
        self.last_input matches Some(d) ==> d != self.direction && d != self.direction.opposite()
    }

    /// No two segments share a cell.
    pub open spec fn distinct(self) -> bool {
        self.body.no_duplicates()
    }

    /// What holds of a game between its ticks: the snake has its head and
    /// at least one more segment, it lies inside the arena on cells that are
    /// all different, and a latched turn is neither the head's direction nor
    /// its reverse.
    pub open spec fn wf(self) -> bool {
        &&& self.body.len() >= 2
        &&& self.in_arena()
        &&& self.distinct()
        &&& self.latch_valid()
    }

    /// A new snake can be put without harm to what holds between ticks: the
    /// latch is empty and the recorded tail cell lies inside the arena.
    pub open spec fn ready_for_snake(self) -> bool {
        &&& self.last_input is None
        &&& self.tail_position matches Some(t) ==> t.in_arena()
    }

    /// The recorded tail cell is free of the snake.
    pub open spec fn tail_free(self) -> bool {
        self.tail_position matches Some(t) && !self.body.contains(t)
    }

    /// The state after a reading of the keys: the turn asked for is latched
    /// if there is a snake, the latch is empty, and the turn is neither the
    /// head's direction nor its reverse.
    pub open spec fn latched(self, keys: Keys) -> GameView {
        let turn = keys.candidate(self.direction);
        if self.has_head() && self.last_input is None && turn != self.direction && turn
            != self.direction.opposite() {
            GameView { last_input: Some(turn), ..self }
        } else {
            self
        }
    }

    /// The movement step can be made: the head, if there is one, is not at
    /// the end of the range of its coordinates.
    pub open spec fn can_move(self) -> bool {
        self.has_head() ==> self.head().can_step()
    }

    /// Growth can be made: a tail cell is recorded and the score is below
    /// the largest number that it can hold.
    pub open spec fn can_grow(self) -> bool {
        self.tail_position is Some && self.score < usize::MAX
    }

    /// The direction of the next movement step: the latched turn if there is
    /// one, else the head's direction.
    pub open spec fn heading(self) -> Direction {
        match self.last_input {
            Some(turn) => turn,
            None => self.direction,
        }
    }

    /// The cell that the head enters in the next movement step.
    pub open spec fn next_head(self) -> Position
        recommends
            self.has_head(),
    {
        self.head().step(self.heading())
    }

    /// The next movement step takes the head out of the arena.
    pub open spec fn hits_wall(self) -> bool {
        self.has_head() && !self.next_head().in_arena()
    }

    /// The next movement step takes the head into a cell that the snake
    /// holds before the step.
    pub open spec fn hits_self(self) -> bool {
        self.has_head() && self.body.contains(self.next_head())
    }

    /// The next movement step ends the game.
    pub open spec fn crashes(self) -> bool {
        self.hits_wall() || self.hits_self()
    }

    /// The state after a movement step. The latch is taken as the new
    /// direction and emptied, the head advances one cell, every other
    /// segment takes the cell that the segment before it held, and the cell
    /// that the last segment held is recorded. Without a snake nothing
    /// changes.
    pub open spec fn moved(self) -> GameView {
        if self.has_head() {
            GameView {
                body: Seq::new(
                    self.body.len(),
                    |i: int|
                        if i == 0 {
                            self.next_head()
                        } else {
                            self.body[i - 1]
                        },
                ),
                direction: self.heading(),
                last_input: None,
                tail_position: Some(self.body.last()),
                ..self
            }
        } else {
            self
        }
    }

    /// The state after `n` movement steps in a row.
    pub open spec fn moved_times(self, n: nat) -> GameView
        decreases n,
    {
        if n == 0 {
            self
        } else {
            self.moved_times((n - 1) as nat).moved()
        }
    }

    /// The head is on the food.
    pub open spec fn head_on_food(self) -> bool {
        self.has_head() && self.food == Some(self.head())
    }

    /// The state after the eating check: the food is gone if the head was on
    /// it.
    pub open spec fn fed(self) -> GameView {
        if self.head_on_food() {
            GameView { food: None, ..self }
        } else {
            self
        }
    }

    /// The state after one growth: the score is one higher and a new last
    /// segment lies on the recorded tail cell.
    pub open spec fn grown(self) -> GameView
        recommends
            self.tail_position is Some,
    {
        GameView {
            body: self.body.push(self.tail_position.unwrap()),
            score: self.score + 1,
            ..self
        }
    }

    /// The state with the snake replaced by a new one.
    pub open spec fn with_new_snake(self) -> GameView {
        GameView { body: initial_body(), direction: Direction::Up, ..self }
    }

    /// The state after the end of a game: the food is gone and the snake is
    /// replaced by a new one. The score, the latch and the recorded tail cell
    /// stay.
    pub open spec fn reset(self) -> GameView {
        GameView { food: None, ..self.with_new_snake() }
    }

    /// The state after one tick with the keys as read: the input latch, the
    /// movement step, the eating check, growth if the head was on the food,
    /// and the end of the game if the movement step ended it, in this order.
    pub open spec fn ticked(self, keys: Keys) -> GameView {
        let latched = self.latched(keys);
        let fed = latched.moved().fed();
        let grown = if latched.moved().head_on_food() {
            fed.grown()
        } else {
            fed
        };
        if latched.crashes() {
            grown.reset()
        } else {
            grown
        }
    }

    /// The state after a run of ticks, one for each reading of the keys in
    /// `keys`, in their order.
    pub open spec fn played(self, keys: Seq<Keys>) -> GameView
        decreases keys.len(),
    {
        if keys.len() == 0 {
            self
        } else {
            self.played(keys.drop_last()).ticked(keys.last())
        }
    }

    /// No tick of the run ends the game.
    pub open spec fn survives(self, keys: Seq<Keys>) -> bool
        decreases keys.len(),
    {
        keys.len() == 0 || (self.survives(keys.drop_last()) && !self.played(
            keys.drop_last(),
        ).latched(keys.last()).crashes())
    }

    /// The state after the food spawner has run with `first` as its choice
    /// of cell and `second` as its one other choice: the food lies on `first`
    /// unless the snake holds that cell, and then on `second`, whatever holds
    /// it. With food on the grid nothing changes.
    pub open spec fn with_food(self, first: Position, second: Position) -> GameView {
        if self.food is Some {
            self
        } else if self.body.contains(first) {
            GameView { food: Some(second), ..self }
        } else {
            GameView { food: Some(first), ..self }
        }
    }
}

} // verus!
