use vstd::prelude::*;

use crate::types::{DifficultyLevel, Player};

verus! {

/// Number of pebbles the easy policy takes: the draw reduced modulo the
/// largest legal move, with a zero residue replaced by that largest move.
pub open spec fn easy_count(remaining: u32, max_per_turn: u32, draw: u32) -> u32 {
    let bound = if remaining < max_per_turn { remaining } else { max_per_turn };
    let c = draw % bound;
    if c == 0 { bound } else { c }
}

/// Takes a pseudo-random number of pebbles in `[1, min(remaining, max_per_turn)]`.
pub fn take_easy_action(remaining: u32, max_per_turn: u32, draw: u32) -> (count: u32)
    requires
        remaining >= 1,
        max_per_turn >= 1,
    ensures
        count == easy_count(remaining, max_per_turn, draw),
        1 <= count,
        count <= remaining,
        count <= max_per_turn,
{
    let mut count = draw;
    if remaining < max_per_turn {
        count = count % remaining;
        if count == 0 {
            count = remaining;
        }
    } else {
        count = count % max_per_turn;
        if count == 0 {
            count = max_per_turn;
        }
    }
    count
}

/// Number of pebbles the hard policy takes: enough to leave a multiple of
/// `max_per_turn + 1`, or the largest move when the pool already is one.
pub open spec fn hard_count(remaining: u32, max_per_turn: u32) -> u32 {
    let target = remaining % ((max_per_turn + 1) as u32);
    if target == 0 { max_per_turn } else { target }
}

/// Takes the optimal number of pebbles for the subtraction game.
pub fn take_hard_action(remaining: u32, max_per_turn: u32) -> (count: u32)
    requires
        remaining >= 1,
        1 <= max_per_turn < u32::MAX,
    ensures
        count == hard_count(remaining, max_per_turn),
        1 <= count,
        count <= remaining,
        count <= max_per_turn,
        remaining as int % (max_per_turn as int + 1) != 0 ==> (remaining - count) % (max_per_turn as int + 1) == 0,
{
    let target = remaining % (max_per_turn + 1);
    let count = if target == 0 {
        max_per_turn
    } else {
        target
    };
    proof {
        let r = remaining as int;
        let m = max_per_turn as int + 1;
        vstd::arithmetic::div_mod::lemma_fundamental_div_mod(r, m);
        let q = r / m;
        if target != 0 {
            assert(r - r % m == q * m) by (nonlinear_arith)
                requires r == m * q + r % m;
            vstd::arithmetic::div_mod::lemma_mod_multiples_basic(q, m);
        } else {
            assert(r >= m) by (nonlinear_arith)
                requires r == m * q, m > 0, r > 0;
        }
    }
    count
}

/// Number of pebbles the program takes under the given difficulty.
pub open spec fn program_count(
    difficulty: DifficultyLevel,
    remaining: u32,
    max_per_turn: u32,
    draw: u32,
) -> u32 {
    match difficulty {
        DifficultyLevel::Easy => easy_count(remaining, max_per_turn, draw),
        DifficultyLevel::Hard => hard_count(remaining, max_per_turn),
    }
}

/// Chooses the program's move under the given difficulty; `draw` is a random
/// number, used by the easy policy only.
pub fn take_program_action(
    difficulty: DifficultyLevel,
    remaining: u32,
    max_per_turn: u32,
    draw: u32,
) -> (count: u32)
    requires
        remaining >= 1,
        1 <= max_per_turn < u32::MAX,
    ensures
        count == program_count(difficulty, remaining, max_per_turn, draw),
        1 <= count <= remaining,
        count <= max_per_turn,
{
    match difficulty {
        DifficultyLevel::Easy => take_easy_action(remaining, max_per_turn, draw),
        DifficultyLevel::Hard => take_hard_action(remaining, max_per_turn),
    }
}

/// Player drawn to open the game: an even draw gives the user, an odd one the
/// program.
pub open spec fn first_player_of(draw: u32) -> Player {
    if draw % 2 == 0 { Player::User } else { Player::Program }
}

/// Picks who moves first from a random number.
pub fn choose_first_player(draw: u32) -> (p: Player)
    ensures
        p == first_player_of(draw),
{
    if draw % 2 == 0 {
        Player::User
    } else {
        Player::Program
    }
}

} // verus!
