//! Properties of movement and of one simulation step, proved from the
//! contracts of `step_head` and `ServerState::step`.
use crate::game_core::{next_cell, Direction, Pos, GRID_HEIGHT, GRID_WIDTH};
use crate::server::{
    candidate, collides, ends, food_placed, grid_full, occupied, someone_eats, stepped, survives, survivor_count,
    ServerState,
};
use vstd::prelude::*;

verus! {

/// Leaving the grid at any edge re-enters it at the opposite edge, on the
/// same row or column.
pub proof fn lemma_wrap_at_edges(x: i32, y: i32)
    requires
        0 <= x < GRID_WIDTH,
        0 <= y < GRID_HEIGHT,
    ensures
        next_cell(Pos { x: 0, y }, Direction::Left) == (Pos { x: (GRID_WIDTH - 1) as i32, y }),
        next_cell(Pos { x: (GRID_WIDTH - 1) as i32, y }, Direction::Right) == (Pos { x: 0, y }),
        next_cell(Pos { x, y: 0 }, Direction::Up) == (Pos { x, y: (GRID_HEIGHT - 1) as i32 }),
        next_cell(Pos { x, y: (GRID_HEIGHT - 1) as i32 }, Direction::Down) == (Pos { x, y: 0 }),
{
}

/// A buffered input that reverses the player's heading is discarded: after
/// the step the player still faces the way it did.
pub proof fn lemma_reversal_rejected(old: ServerState, new: ServerState, i: int)
    requires
        stepped(old, new),
        !old.game_over,
        0 <= i < old.players@.len(),
        old.players@[i].latest_input == Some(old.players@[i].dir.opposite_spec()),
    ensures
        new.players@[i].dir == old.players@[i].dir,
        new.players@[i].latest_input.is_none(),
{
}

/// Any other buffered input becomes the player's heading.
pub proof fn lemma_turn_taken(old: ServerState, new: ServerState, i: int, d: Direction)
    requires
        stepped(old, new),
        !old.game_over,
        0 <= i < old.players@.len(),
        old.players@[i].latest_input == Some(d),
        d != old.players@[i].dir.opposite_spec(),
    ensures
        new.players@[i].dir == d,
        new.players@[i].latest_input.is_none(),
{
}

/// A living snake whose next head lands on its own body dies that tick; its
/// body and score stay as they were.
pub proof fn lemma_self_collision(old: ServerState, new: ServerState, i: int)
    requires
        stepped(old, new),
        !old.game_over,
        0 <= i < old.players@.len(),
        !old.players@[i].dead,
        old.players@[i].snake@.len() >= 2,
        old.players@[i].snake@.contains(candidate(old.players@[i])),
    ensures
        new.players@[i].dead,
        new.players@[i].snake@ == old.players@[i].snake@,
        new.players@[i].score == old.players@[i].score,
{
    let ps = old.players@;
    assert(occupied(ps, candidate(ps[i])));
}

/// Two snakes whose next heads land on each other's bodies both die, with
/// their bodies as they were; when they are the only two players, the game
/// ends in a draw.
pub proof fn lemma_mutual_elimination(old: ServerState, new: ServerState, a: int, b: int)
    requires
        stepped(old, new),
        !old.game_over,
        0 <= a < old.players@.len(),
        0 <= b < old.players@.len(),
        a != b,
        !old.players@[a].dead,
        !old.players@[b].dead,
        old.players@[b].snake@.contains(candidate(old.players@[a])),
        old.players@[a].snake@.contains(candidate(old.players@[b])),
    ensures
        new.players@[a].dead,
        new.players@[b].dead,
        new.players@[a].snake@ == old.players@[a].snake@,
        new.players@[b].snake@ == old.players@[b].snake@,
        old.players@.len() == 2 ==> new.game_over && new.winner.is_none(),
{
    let ps = old.players@;
    reveal_with_fuel(survivor_count, 3);
    assert(occupied(ps, candidate(ps[a])));
    assert(occupied(ps, candidate(ps[b])));
}

/// In a two-player game where exactly one snake collides, the game ends and
/// the other player (by its one-based id) wins.
pub proof fn lemma_single_elimination(old: ServerState, new: ServerState, loser: int)
    requires
        stepped(old, new),
        !old.game_over,
        old.players@.len() == 2,
        0 <= loser < 2,
        !old.players@[0].dead,
        !old.players@[1].dead,
        collides(old.players@, loser),
        !collides(old.players@, 1 - loser),
    ensures
        new.game_over,
        new.winner == Some((2 - loser) as u8),
        new.players@[loser].dead,
        !new.players@[1 - loser].dead,
{
    reveal_with_fuel(survivor_count, 3);
}

/// A snake whose next head reaches the food, in a step that does not end the
/// game, grows by one segment and scores one; the food moves to a cell of
/// the grid that no living body covers, if one is left.
pub proof fn lemma_food_growth(old: ServerState, new: ServerState, i: int)
    requires
        stepped(old, new),
        !old.game_over,
        0 <= i < old.players@.len(),
        survives(old.players@, i),
        !ends(old.players@),
        candidate(old.players@[i]) == old.food,
    ensures
        !new.players@[i].dead,
        new.players@[i].snake@ == seq![candidate(old.players@[i])] + old.players@[i].snake@,
        new.players@[i].snake@.len() == old.players@[i].snake@.len() + 1,
        new.players@[i].score == old.players@[i].score + 1,
        food_placed(new.players@, new.food),
        !grid_full(new.players@) ==> !occupied(new.players@, new.food),
{
    assert(crate::server::eats(old.players@, old.food, i));
}

/// A surviving snake that does not reach the food, in a step that does not
/// end the game, moves its head on and drops its tail, keeping its length
/// and score; the tick advances by one, and when nobody eats the food stays.
pub proof fn lemma_plain_move(old: ServerState, new: ServerState, i: int)
    requires
        stepped(old, new),
        !old.game_over,
        0 <= i < old.players@.len(),
        old.players@[i].snake@.len() >= 1,
        survives(old.players@, i),
        !ends(old.players@),
        candidate(old.players@[i]) != old.food,
    ensures
        new.players@[i].snake@ == seq![candidate(old.players@[i])] + old.players@[i].snake@.drop_last(),
        new.players@[i].snake@.len() == old.players@[i].snake@.len(),
        new.players@[i].score == old.players@[i].score,
        !new.players@[i].dead,
        new.tick == old.tick + 1,
        !someone_eats(old.players@, old.food) ==> new.food == old.food,
{
}

/// Every step of a running game advances the tick by exactly one, the step
/// that ends the game included; once it is over the tick stands still.
pub proof fn lemma_tick_advances(old: ServerState, new: ServerState)
    requires
        stepped(old, new),
    ensures
        !old.game_over ==> new.tick == old.tick + 1,
        old.game_over ==> new.tick == old.tick && new.game_over,
{
}

} // verus!
