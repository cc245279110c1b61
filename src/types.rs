use vstd::prelude::*;

verus! {

/// Strategy used by the program when it moves.
#[derive(Clone, Copy, Debug, PartialEq, Eq, Structural)]
pub enum DifficultyLevel {
    Easy,
    Hard,
}

/// One of the two participants of a game.
#[derive(Clone, Copy, Debug, PartialEq, Eq, Structural)]
pub enum Player {
    User,
    Program,
}

/// Parameters of a new game.
#[derive(Clone, Copy, Debug, PartialEq, Eq)]
pub struct PebblesInit {
    pub difficulty: DifficultyLevel,
    pub pebbles_count: u32,
    pub max_pebbles_per_turn: u32,
}

/// A command sent to a running game.
#[derive(Clone, Copy, Debug, PartialEq, Eq)]
pub enum PebblesAction {
    Turn(u32),
    GiveUp,
    Restart { difficulty: DifficultyLevel, pebbles_count: u32, max_pebbles_per_turn: u32 },
}

/// The reply to a command.
#[derive(Clone, Copy, Debug, PartialEq, Eq)]
pub enum PebblesEvent {
    /// The game goes on; the payload is the number of pebbles the program took
    /// (zero when it did not move).
    CounterTurn(u32),
    /// The game is over.
    Won(Player),
    /// The command was not applied and the game is unchanged.
    Rejected,
}

/// Why an operation of the engine failed.
#[derive(Clone, Copy, Debug, PartialEq, Eq)]
pub enum GameError {
    /// The pebble count must exceed the per-turn maximum, which must be positive.
    InvalidConfiguration,
    /// No game has been started yet.
    Uninitialized,
}

/// One game session.
#[derive(Clone, Copy, Debug, PartialEq, Eq)]
pub struct GameState {
    pub pebbles_count: u32,
    pub max_pebbles_per_turn: u32,
    pub pebbles_remaining: u32,
    pub difficulty: DifficultyLevel,
    pub first_player: Player,
    pub winner: Option<Player>,
}

/// A configuration from which a game can start.
pub open spec fn valid_config(pebbles_count: u32, max_pebbles_per_turn: u32) -> bool {
    1 <= max_pebbles_per_turn && max_pebbles_per_turn < pebbles_count
}

impl GameState {
    /// Well-formed session: a valid configuration, a pool that never exceeds
    /// its initial size, and a winner known as soon as the pool is empty.
    pub open spec fn wf(self) -> bool {
        &&& valid_config(self.pebbles_count, self.max_pebbles_per_turn)
        &&& self.pebbles_remaining <= self.pebbles_count
        &&& self.pebbles_remaining == 0 ==> self.winner.is_some()
    }

    /// The game is still being played.
    pub open spec fn in_progress(self) -> bool {
        self.winner.is_none()
    }
}

} // verus!
