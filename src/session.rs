use vstd::prelude::*;

use crate::policy::{program_count, take_program_action};
use crate::types::{valid_config, GameState, PebblesEvent, PebblesInit, Player};

verus! {

/// The session that a configuration starts, with the number of pebbles the
/// program took if it moved first (zero otherwise).
pub open spec fn start(config: PebblesInit, first_player: Player, draw: u32) -> (GameState, u32) {
    let fresh = GameState {
        pebbles_count: config.pebbles_count,
        max_pebbles_per_turn: config.max_pebbles_per_turn,
        pebbles_remaining: config.pebbles_count,
        difficulty: config.difficulty,
        first_player,
        winner: None,
    };
    match first_player {
        Player::User => (fresh, 0),
        Player::Program => {
            let c = program_count(
                config.difficulty,
                config.pebbles_count,
                config.max_pebbles_per_turn,
                draw,
            );
            (GameState { pebbles_remaining: (config.pebbles_count - c) as u32, ..fresh }, c)
        },
    }
}

impl GameState {
    /// A move the user may make: at least one pebble, at most the per-turn
    /// maximum and at most what is left.
    pub open spec fn legal_move(self, count: u32) -> bool {
        1 <= count && count <= self.max_pebbles_per_turn && count <= self.pebbles_remaining
    }

    /// The session and the reply after the user asks to take `count` pebbles;
    /// `draw` is the random number the easy policy would use.
    pub open spec fn after_turn(self, count: u32, draw: u32) -> (GameState, PebblesEvent) {
        if !self.in_progress() || !self.legal_move(count) {
            (self, PebblesEvent::Rejected)
        } else {
            let left = (self.pebbles_remaining - count) as u32;
            if left == 0 {
                (
                    GameState { pebbles_remaining: 0, winner: Some(Player::User), ..self },
                    PebblesEvent::Won(Player::User),
                )
            } else {
                let c = program_count(self.difficulty, left, self.max_pebbles_per_turn, draw);
                let rest = (left - c) as u32;
                if rest == 0 {
                    (
                        GameState { pebbles_remaining: 0, winner: Some(Player::Program), ..self },
                        PebblesEvent::Won(Player::Program),
                    )
                } else {
                    (GameState { pebbles_remaining: rest, ..self }, PebblesEvent::CounterTurn(c))
                }
            }
        }
    }

    /// The session and the reply after the user concedes.
    pub open spec fn after_give_up(self) -> (GameState, PebblesEvent) {
        if self.in_progress() {
            (GameState { winner: Some(Player::Program), ..self }, PebblesEvent::Won(Player::Program))
        } else {
            (self, PebblesEvent::Rejected)
        }
    }

    /// Starts a session from a valid configuration. If the program opens, it
    /// makes its first move at once; the count it took is returned.
    pub fn new(config: PebblesInit, first_player: Player, draw: u32) -> (r: (GameState, u32))
        requires
            valid_config(config.pebbles_count, config.max_pebbles_per_turn),
        ensures
            r == start(config, first_player, draw),
            r.0.wf(),
            r.0.in_progress(),
    {
        let mut game = GameState {
            pebbles_count: config.pebbles_count,
            max_pebbles_per_turn: config.max_pebbles_per_turn,
            pebbles_remaining: config.pebbles_count,
            difficulty: config.difficulty,
            first_player,
            winner: None,
        };
        let mut count: u32 = 0;
        match first_player {
            Player::Program => {
                count = game.exec_program_turn(draw);
            },
            Player::User => {},
        }
        (game, count)
    }

    /// Lets the program move: it takes the count its policy chooses.
    pub fn exec_program_turn(&mut self, draw: u32) -> (count: u32)
        requires
            valid_config(old(self).pebbles_count, old(self).max_pebbles_per_turn),
            old(self).pebbles_remaining >= 1,
        ensures
            count == program_count(
                old(self).difficulty,
                old(self).pebbles_remaining,
                old(self).max_pebbles_per_turn,
                draw,
            ),
            1 <= count <= old(self).pebbles_remaining,
            *final(self) == (GameState {
                pebbles_remaining: (old(self).pebbles_remaining - count) as u32,
                ..*old(self)
            }),
    {
        let count = take_program_action(
            self.difficulty,
            self.pebbles_remaining,
            self.max_pebbles_per_turn,
            draw,
        );
        self.pebbles_remaining = self.pebbles_remaining - count;
        count
    }

    /// Removes `count` pebbles for the user if that is a legal move; otherwise
    /// leaves the session as it is and returns `None`.
    pub fn remove_pebbles(&mut self, count: u32) -> (r: Option<()>)
        ensures
            r.is_some() == old(self).legal_move(count),
            r.is_some() ==> *final(self) == (GameState {
                pebbles_remaining: (old(self).pebbles_remaining - count) as u32,
                ..*old(self)
            }),
            r.is_none() ==> *final(self) == *old(self),
    {
        if count == 0 {
            return None;
        }
        if count > self.max_pebbles_per_turn {
            return None;
        }
        if count > self.pebbles_remaining {
            return None;
        }
        self.pebbles_remaining = self.pebbles_remaining - count;
        Some(())
    }

    /// The user takes `count` pebbles and, if pebbles are left, the program
    /// answers. An illegal move, or any move once the game is over, is
    /// rejected and changes nothing.
    pub fn apply_turn(&mut self, count: u32, draw: u32) -> (event: PebblesEvent)
        requires
            old(self).wf(),
        ensures
            (*final(self), event) == old(self).after_turn(count, draw),
            final(self).wf(),
    {
        if self.winner.is_some() {
            return PebblesEvent::Rejected;
        }
        match self.remove_pebbles(count) {
            None => PebblesEvent::Rejected,
            Some(()) => {
                if self.pebbles_remaining == 0 {
                    self.winner = Some(Player::User);
                    PebblesEvent::Won(Player::User)
                } else {
                    let taken = self.exec_program_turn(draw);
                    if self.pebbles_remaining == 0 {
                        self.winner = Some(Player::Program);
                        PebblesEvent::Won(Player::Program)
                    } else {
                        PebblesEvent::CounterTurn(taken)
                    }
                }
            },
        }
    }

    /// The user concedes: the program wins whatever is left. Once the game is
    /// over this is rejected and changes nothing.
    pub fn give_up(&mut self) -> (event: PebblesEvent)
        requires
            old(self).wf(),
        ensures
            (*final(self), event) == old(self).after_give_up(),
            final(self).wf(),
    {
        if self.winner.is_some() {
            return PebblesEvent::Rejected;
        }
        self.winner = Some(Player::Program);
        PebblesEvent::Won(Player::Program)
    }
}

} // verus!
