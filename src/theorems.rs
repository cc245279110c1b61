use vstd::prelude::*;

use crate::engine::PebblesGame;
use crate::policy::{easy_count, first_player_of, hard_count, program_count};
use crate::types::{valid_config, DifficultyLevel, GameState, PebblesAction, PebblesEvent, Player};

verus! {

/// Whatever the random draw, the easy policy takes at least one pebble and no
/// more than `min(remaining, max_per_turn)`, also when the draw is a multiple
/// of that bound.
pub proof fn lemma_easy_count_in_range(remaining: u32, max_per_turn: u32, draw: u32)
    requires
        remaining >= 1,
        max_per_turn >= 1,
    ensures
        1 <= easy_count(remaining, max_per_turn, draw),
        easy_count(remaining, max_per_turn, draw) <= remaining,
        easy_count(remaining, max_per_turn, draw) <= max_per_turn,
{
}

/// Either policy takes at least one pebble and never more than the per-turn
/// maximum or the pool holds.
pub proof fn lemma_program_count_in_range(
    difficulty: DifficultyLevel,
    remaining: u32,
    max_per_turn: u32,
    draw: u32,
)
    requires
        remaining >= 1,
        1 <= max_per_turn < u32::MAX,
    ensures
        1 <= program_count(difficulty, remaining, max_per_turn, draw),
        program_count(difficulty, remaining, max_per_turn, draw) <= remaining,
        program_count(difficulty, remaining, max_per_turn, draw) <= max_per_turn,
{
    let r = remaining as int;
    let m = max_per_turn as int + 1;
    vstd::arithmetic::div_mod::lemma_fundamental_div_mod(r, m);
    let q = r / m;
    assert(r % m <= r && (r % m == 0 ==> r >= m)) by (nonlinear_arith)
        requires r == m * q + r % m, 0 <= r % m < m, r > 0, m > 0;
    assert(1 <= hard_count(remaining, max_per_turn) <= remaining);
}

/// Every command keeps each held session well formed, so the pool stays
/// within `0 ..= pebbles_count`; within one session it never grows.
pub proof fn lemma_pool_stays_bounded(
    e: PebblesGame,
    action: PebblesAction,
    first_draw: u32,
    move_draw: u32,
)
    requires
        e.wf(),
    ensures
        e.after(action, first_draw, move_draw).0.wf(),
        e.after(action, first_draw, move_draw).0.game matches Some(g) ==> g.pebbles_remaining
            <= g.pebbles_count,
        e.game.is_some() && !(action matches PebblesAction::Restart { .. }) ==> ({
            let g2 = e.after(action, first_draw, move_draw).0.game;
            &&& g2.is_some()
            &&& g2.unwrap().pebbles_remaining <= e.game.unwrap().pebbles_remaining
            &&& g2.unwrap().pebbles_count == e.game.unwrap().pebbles_count
        }),
{
    if let Some(g) = e.game {
        match action {
            PebblesAction::Turn(count) => {
                if g.in_progress() && g.legal_move(count) {
                    let left = (g.pebbles_remaining - count) as u32;
                    if left != 0 {
                        lemma_program_count_in_range(
                            g.difficulty,
                            left,
                            g.max_pebbles_per_turn,
                            move_draw,
                        );
                    }
                }
            },
            PebblesAction::GiveUp => {},
            PebblesAction::Restart { difficulty, pebbles_count, max_pebbles_per_turn } => {
                if valid_config(pebbles_count, max_pebbles_per_turn) {
                    lemma_program_count_in_range(
                        difficulty,
                        pebbles_count,
                        max_pebbles_per_turn,
                        move_draw,
                    );
                }
            },
        }
    }
}

/// The winner stays unset until the pool is emptied or the user concedes;
/// once set, no turn and no concession changes the session again.
pub proof fn lemma_winner_settles(s: GameState, count: u32, draw: u32)
    requires
        s.wf(),
    ensures
        s.after_turn(count, draw).0.winner.is_some() ==> s.winner.is_some() || s.after_turn(
            count,
            draw,
        ).0.pebbles_remaining == 0,
        s.after_turn(count, draw).0.pebbles_remaining == 0 ==> s.after_turn(
            count,
            draw,
        ).0.winner.is_some(),
        s.after_give_up().0.winner.is_some(),
        s.winner.is_some() ==> s.after_turn(count, draw) == (s, PebblesEvent::Rejected),
        s.winner.is_some() ==> s.after_give_up() == (s, PebblesEvent::Rejected),
{
}

/// Conceding a game in progress makes the program the winner, whatever is
/// left in the pool, and changes nothing else.
pub proof fn lemma_give_up_program_wins(s: GameState)
    requires
        s.wf(),
        s.in_progress(),
    ensures
        s.after_give_up() == (GameState { winner: Some(Player::Program), ..s }, PebblesEvent::Won(
            Player::Program,
        )),
{
}

/// After a restart the pool is full if the user opens, and already smaller if
/// the program opens.
pub proof fn lemma_restart_pool(
    e: PebblesGame,
    difficulty: DifficultyLevel,
    pebbles_count: u32,
    max_pebbles_per_turn: u32,
    first_draw: u32,
    move_draw: u32,
)
    requires
        e.wf(),
        e.game.is_some(),
        valid_config(pebbles_count, max_pebbles_per_turn),
    ensures
        ({
            let (e2, r) = e.after(
                PebblesAction::Restart { difficulty, pebbles_count, max_pebbles_per_turn },
                first_draw,
                move_draw,
            );
            &&& r.is_ok()
            &&& e2.game matches Some(g) && g.pebbles_count == pebbles_count
                && g.first_player == first_player_of(first_draw) && g.winner.is_none() && (
            g.first_player == Player::User ==> g.pebbles_remaining == pebbles_count) && (
            g.first_player == Player::Program ==> g.pebbles_remaining < pebbles_count)
        }),
{
    lemma_program_count_in_range(difficulty, pebbles_count, max_pebbles_per_turn, move_draw);
}

/// A turn of no pebbles, of more than the per-turn maximum or of more than
/// the pool holds is rejected and leaves the session unchanged.
pub proof fn lemma_rejected_turn_is_noop(s: GameState, count: u32, draw: u32)
    requires
        count == 0 || count > s.max_pebbles_per_turn || count > s.pebbles_remaining,
    ensures
        s.after_turn(count, draw) == (s, PebblesEvent::Rejected),
{
}

} // verus!
