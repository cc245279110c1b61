use vstd::prelude::*;

use crate::policy::{choose_first_player, first_player_of};
use crate::session::start;
use crate::types::{valid_config, GameError, GameState, PebblesAction, PebblesEvent, PebblesInit};

verus! {

/// Holds at most one game session and applies commands to it.
pub struct PebblesGame {
    pub game: Option<GameState>,
}

impl PebblesGame {
    /// Every session held is well formed.
    pub open spec fn wf(self) -> bool {
        self.game matches Some(g) ==> g.wf()
    }

    /// The engine after a configuration is accepted, with the count the
    /// program took on its opening move (zero if the user opens); `None` when
    /// the configuration is invalid.
    pub open spec fn started(config: PebblesInit, first_draw: u32, move_draw: u32) -> Option<
        (PebblesGame, u32),
    > {
        if valid_config(config.pebbles_count, config.max_pebbles_per_turn) {
            let (g, c) = start(config, first_player_of(first_draw), move_draw);
            Some((PebblesGame { game: Some(g) }, c))
        } else {
            None
        }
    }

    /// The engine and the result after `action`. Errors leave the engine
    /// unchanged.
    pub open spec fn after(self, action: PebblesAction, first_draw: u32, move_draw: u32) -> (
        PebblesGame,
        Result<PebblesEvent, GameError>,
    ) {
        match self.game {
            None => (self, Err(GameError::Uninitialized)),
            Some(g) => match action {
                PebblesAction::Turn(count) => {
                    let (g2, e) = g.after_turn(count, move_draw);
                    (PebblesGame { game: Some(g2) }, Ok(e))
                },
                PebblesAction::GiveUp => {
                    let (g2, e) = g.after_give_up();
                    (PebblesGame { game: Some(g2) }, Ok(e))
                },
                PebblesAction::Restart { difficulty, pebbles_count, max_pebbles_per_turn } => {
                    let config = PebblesInit { difficulty, pebbles_count, max_pebbles_per_turn };
                    match PebblesGame::started(config, first_draw, move_draw) {
                        Some((e2, c)) => (e2, Ok(PebblesEvent::CounterTurn(c))),
                        None => (self, Err(GameError::InvalidConfiguration)),
                    }
                },
            },
        }
    }

    /// An engine that holds no session yet.
    pub fn new() -> (r: PebblesGame)
        ensures
            r.game.is_none(),
            r.wf(),
    {
        PebblesGame { game: None }
    }

    /// Starts a session, replacing any held before. `first_draw` decides who
    /// opens (even: the user, odd: the program); `move_draw` is the random
    /// number the easy policy uses if the program opens. Returns the count the
    /// program took on its opening move, or zero if the user opens.
    pub fn init(&mut self, config: PebblesInit, first_draw: u32, move_draw: u32) -> (r: Result<
        u32,
        GameError,
    >)
        requires
            old(self).wf(),
        ensures
            final(self).wf(),
            match PebblesGame::started(config, first_draw, move_draw) {
                Some((e, c)) => r == Ok::<u32, GameError>(c) && *final(self) == e,
                None => {
                    &&& r == Err::<u32, GameError>(GameError::InvalidConfiguration)
                    &&& *final(self) == *old(self)
                },
            },
    {
        if config.pebbles_count <= config.max_pebbles_per_turn || config.max_pebbles_per_turn == 0 {
            return Err(GameError::InvalidConfiguration);
        }
        let first_player = choose_first_player(first_draw);
        let (game, count) = GameState::new(config, first_player, move_draw);
        self.game = Some(game);
        Ok(count)
    }

    /// Applies one command to the held session. `first_draw` and `move_draw`
    /// are random numbers: the first decides who opens a restarted game, the
    /// second is used by the easy policy whenever the program moves.
    pub fn handle(&mut self, action: PebblesAction, first_draw: u32, move_draw: u32) -> (r: Result<
        PebblesEvent,
        GameError,
    >)
        requires
            old(self).wf(),
        ensures
            (*final(self), r) == old(self).after(action, first_draw, move_draw),
            final(self).wf(),
    {
        let mut game = match self.game {
            None => return Err(GameError::Uninitialized),
            Some(g) => g,
        };
        match action {
            PebblesAction::Turn(count) => {
                let event = game.apply_turn(count, move_draw);
                self.game = Some(game);
                Ok(event)
            },
            PebblesAction::GiveUp => {
                let event = game.give_up();
                self.game = Some(game);
                Ok(event)
            },
            PebblesAction::Restart { difficulty, pebbles_count, max_pebbles_per_turn } => {
                let config = PebblesInit { difficulty, pebbles_count, max_pebbles_per_turn };
                match self.init(config, first_draw, move_draw) {
                    Ok(count) => Ok(PebblesEvent::CounterTurn(count)),
                    Err(e) => Err(e),
                }
            },
        }
    }

    /// A copy of the held session.
    pub fn state(&self) -> (r: Result<GameState, GameError>)
        ensures
            match self.game {
                Some(g) => r == Ok::<GameState, GameError>(g),
                None => r == Err::<GameState, GameError>(GameError::Uninitialized),
            },
    {
        match self.game {
            Some(g) => Ok(g),
            None => Err(GameError::Uninitialized),
        }
    }
}

} // verus!
