//! What holds of the simulation whatever the state and the keys.
//!
//! The laws are stated over the model; the executable steps take them over
//! through their contracts, which give each step's result as a function of
//! the model.

use vstd::prelude::*;
use crate::direction::Direction;
use crate::grid::Position;
use crate::input::Keys;
use crate::model::GameView;

verus! {

/// The snake never gets shorter but when a game ends: the input latch, the
/// movement step, the eating check and the food spawner keep its length,
/// growth adds one segment, and a tick that does not end the game keeps or
/// adds to the length.
pub proof fn length_never_decreases(v: GameView, keys: Keys, first: Position, second: Position)
    ensures
        v.latched(keys).body.len() == v.body.len(),
        v.moved().body.len() == v.body.len(),
        v.fed().body.len() == v.body.len(),
        v.grown().body.len() == v.body.len() + 1,
        v.with_food(first, second).body.len() == v.body.len(),
        !v.latched(keys).crashes() ==> v.ticked(keys).body.len() >= v.body.len(),
{
}

/// The score never goes down: only growth changes it, by one, and the end of
/// a game leaves it alone.
pub proof fn score_never_decreases(v: GameView, keys: Keys, first: Position, second: Position)
    ensures
        v.latched(keys).score == v.score,
        v.moved().score == v.score,
        v.fed().score == v.score,
        v.grown().score == v.score + 1,
        v.reset().score == v.score,
        v.with_food(first, second).score == v.score,
        v.ticked(keys).score >= v.score,
{
}

/// The head never turns right round from one movement step to the next.
///
/// While a latched turn is neither the head's direction nor its reverse,
/// the direction after a movement step is not the reverse of the one before
/// it, and the same holds of a tick that does not end the game. The input
/// latch, the movement step and the tick keep the latch that way.
pub proof fn head_never_reverses(v: GameView, keys: Keys)
    requires
        v.latch_valid(),
    ensures
        v.moved().direction != v.direction.opposite(),
        !v.latched(keys).crashes() ==> v.ticked(keys).direction != v.direction.opposite(),
        v.latched(keys).latch_valid(),
        v.moved().latch_valid(),
        v.ticked(keys).latch_valid(),
{
}

/// Eating raises the score by exactly one and lengthens the snake by exactly
/// one segment at the next growth.
///
/// With the head on the food, the eating check removes the food and the
/// growth after it adds one to the score and one segment, on the recorded
/// tail cell. A tick does the same when its movement step brings the head
/// onto the food, and leaves the score as it was when it does not.
pub proof fn eating_grows_by_one(v: GameView, keys: Keys)
    ensures
        v.head_on_food() ==> {
            &&& v.fed().food is None
            &&& v.fed().grown().score == v.score + 1
            &&& v.fed().grown().body.len() == v.body.len() + 1
            &&& v.fed().grown().body.last() == v.tail_position.unwrap()
            &&& v.fed().grown().body.drop_last() == v.body
        },
        !v.head_on_food() ==> v.fed() == v,
        v.latched(keys).moved().head_on_food() ==> {
            &&& v.ticked(keys).food is None
            &&& v.ticked(keys).score == v.score + 1
            &&& !v.latched(keys).crashes() ==> v.ticked(keys).body.len() == v.body.len() + 1
        },
        !v.latched(keys).moved().head_on_food() ==> {
            &&& v.ticked(keys).score == v.score
            &&& !v.latched(keys).crashes() ==> v.ticked(keys).body.len() == v.body.len()
        },
{
}

/// A snake that runs straight is where the direction vector puts it.
///
/// With an empty latch and a head that can step, after `n` movement steps of
/// which none but the last has ended the game, the head is `n` times the
/// direction vector away from where it was, and still faces the same way.
pub proof fn straight_run(v: GameView, n: nat)
    requires
        v.has_head(),
        v.head().can_step(),
        v.last_input is None,
        forall|k: nat| k + 1 < n ==> !(#[trigger] v.moved_times(k)).crashes(),
    ensures
        v.moved_times(n).has_head(),
        v.moved_times(n).head().x == v.head().x + n * v.direction.dx(),
        v.moved_times(n).head().y == v.head().y + n * v.direction.dy(),
        v.moved_times(n).direction == v.direction,
        v.moved_times(n).last_input is None,
        v.moved_times(n).body.len() == v.body.len(),
    decreases n,
{
    if n > 0 {
        let m = (n - 1) as nat;
        straight_run(v, m);
        if m > 0 {
            straight_run(v, (m - 1) as nat);
        }
        assert(n * v.direction.dx() == m * v.direction.dx() + v.direction.dx()) by (nonlinear_arith)
            requires
                n == m + 1,
        ;
        assert(n * v.direction.dy() == m * v.direction.dy() + v.direction.dy()) by (nonlinear_arith)
            requires
                n == m + 1,
        ;
    }
}

/// Whether the keys ask for no turn of a head that faces `direction`: they
/// ask for that direction, for its reverse, or for nothing.
pub open spec fn asks_no_turn(keys: Keys, direction: Direction) -> bool {
    keys.candidate(direction) == direction || keys.candidate(direction) == direction.opposite()
}

/// A snake that runs straight through whole ticks is where the direction
/// vector puts it.
///
/// With an empty latch, a head that can step and readings of the keys that
/// ask for no turn, after a run of ticks of which none has ended the game
/// the head is as many times the direction vector away from where it was as
/// the run has ticks, inside the arena if the run has any, and still faces
/// the same way.
pub proof fn straight_run_of_ticks(v: GameView, keys: Seq<Keys>)
    requires
        v.has_head(),
        v.head().can_step(),
        v.last_input is None,
        forall|k: int| 0 <= k < keys.len() ==> asks_no_turn(#[trigger] keys[k], v.direction),
        v.survives(keys),
    ensures
        v.played(keys).has_head(),
        keys.len() > 0 ==> v.played(keys).head().in_arena(),
        v.played(keys).head().x == v.head().x + keys.len() * v.direction.dx(),
        v.played(keys).head().y == v.head().y + keys.len() * v.direction.dy(),
        v.played(keys).direction == v.direction,
        v.played(keys).last_input is None,
    decreases keys.len(),
{
    if keys.len() > 0 {
        let n = keys.len();
        let m = (n - 1) as nat;
        straight_run_of_ticks(v, keys.drop_last());
        assert(n * v.direction.dx() == m * v.direction.dx() + v.direction.dx()) by (nonlinear_arith)
            requires
                n == m + 1,
        ;
        assert(n * v.direction.dy() == m * v.direction.dy() + v.direction.dy()) by (nonlinear_arith)
            requires
                n == m + 1,
        ;
    }
}

/// Over a run of ticks of which none ends the game the snake never gets
/// shorter; over any run the score never goes down.
pub proof fn run_never_shrinks(v: GameView, keys: Seq<Keys>)
    ensures
        v.survives(keys) ==> v.played(keys).body.len() >= v.body.len(),
        v.played(keys).score >= v.score,
    decreases keys.len(),
{
    if keys.len() > 0 {
        run_never_shrinks(v, keys.drop_last());
    }
}

/// What holds of a game between its ticks holds from its start on: of a new
/// game, and after the input latch, a tick, a run of ticks and the food
/// spawner of every state of which it held before.
pub proof fn wf_is_kept(v: GameView, keys: Keys, run: Seq<Keys>, first: Position, second: Position)
    requires
        v.wf(),
    ensures
        GameView::initial().wf(),
        v.latched(keys).wf(),
        v.ticked(keys).wf(),
        v.with_food(first, second).wf(),
        v.played(run).wf(),
    decreases run.len(),
{
    if run.len() > 0 {
        wf_is_kept(v, keys, run.drop_last(), first, second);
    }
}

/// A state inside the arena stays inside it.
///
/// Every step but the movement step keeps the segments and the recorded
/// tail cell inside the arena; the movement step does so unless the head
/// hits the wall, and then only the head is outside; a tick does so always,
/// since it ends the game then.
pub proof fn arena_is_kept(v: GameView, keys: Keys, first: Position, second: Position)
    requires
        v.in_arena(),
    ensures
        v.latched(keys).in_arena(),
        v.can_move(),
        v.moved().in_arena() <==> !v.hits_wall(),
        v.fed().in_arena(),
        v.tail_position is Some ==> v.grown().in_arena(),
        v.with_new_snake().in_arena(),
        v.reset().in_arena(),
        v.with_food(first, second).in_arena(),
        v.ticked(keys).in_arena(),
        GameView::initial().in_arena(),
{
    if v.hits_wall() {
        assert(v.moved().body[0] == v.next_head());
    }
}

/// Segments on cells of their own stay on cells of their own.
///
/// If no two segments share a cell, a movement step that does not end the
/// game leaves it so and records a tail cell that is free of the snake; a
/// growth onto a free tail cell leaves it so; and so does a whole tick.
pub proof fn distinct_is_kept(v: GameView, keys: Keys)
    requires
        v.distinct(),
    ensures
        !v.crashes() && v.has_head() ==> v.moved().distinct() && v.moved().tail_free(),
        v.tail_free() ==> v.grown().distinct(),
        v.reset().distinct(),
        v.ticked(keys).distinct(),
        GameView::initial().distinct(),
{
}

/// Food is put on a cell that is free of the snake whenever one of the
/// spawner's two choices is free.
pub proof fn food_avoids_snake(v: GameView, first: Position, second: Position)
    requires
        v.food is None,
    ensures
        v.with_food(first, second).food is Some,
        !v.body.contains(first) ==> v.with_food(first, second).food == Some(first),
        v.body.contains(first) ==> v.with_food(first, second).food == Some(second),
        !v.body.contains(first) || !v.body.contains(second) ==> !v.body.contains(
            v.with_food(first, second).food.unwrap(),
        ),
{
}

} // verus!
