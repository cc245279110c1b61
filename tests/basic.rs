use pebbles_game::engine::PebblesGame;
use pebbles_game::types::{
    DifficultyLevel, GameError, GameState, PebblesAction, PebblesEvent, PebblesInit, Player,
};

const PEBBLES_COUNT: u32 = 72;
const MAX_PEBBLES_PER_TURN: u32 = 5;

/// Even first draws let the user open, odd ones the program.
const USER_FIRST: u32 = 2;
const PROGRAM_FIRST: u32 = 3;

/// Deterministic stand-in for the random source.
struct Draws(u32);

impl Draws {
    fn next(&mut self) -> u32 {
        let mut x = self.0;
        x ^= x << 13;
        x ^= x >> 17;
        x ^= x << 5;
        self.0 = x;
        x
    }
}

fn init_game_success(difficulty: DifficultyLevel, first_draw: u32, draws: &mut Draws) -> PebblesGame {
    let pebbles_init = PebblesInit {
        difficulty,
        pebbles_count: PEBBLES_COUNT,
        max_pebbles_per_turn: MAX_PEBBLES_PER_TURN,
    };
    let mut pebbles_game = PebblesGame::new();
    let result = pebbles_game.init(pebbles_init, first_draw, draws.next());
    assert!(result.is_ok());
    pebbles_game
}

fn read_state(pebbles_game: &PebblesGame) -> GameState {
    pebbles_game.state().unwrap()
}

fn create_user_turns(game_state: &GameState) -> Vec<u32> {
    let mut user_turns: Vec<u32> = Vec::new();
    let mut count = 0;
    for _ in 0..game_state.pebbles_count {
        let mut turn_num = (count + 31) % MAX_PEBBLES_PER_TURN;
        if turn_num == 0 {
            if count % 2 == 0 {
                turn_num = MAX_PEBBLES_PER_TURN;
            } else {
                turn_num = 1;
            }
        }
        user_turns.push(turn_num);
        count += 1;
    }
    user_turns
}

fn play_until_over(pebbles_game: &mut PebblesGame, user_turns: &[u32], draws: &mut Draws) {
    let mut game_state = read_state(pebbles_game);
    let mut count = 0;
    loop {
        if game_state.pebbles_remaining == 0 || count == user_turns.len() {
            break;
        }
        let before = game_state.pebbles_remaining;
        let event = pebbles_game.handle(PebblesAction::Turn(user_turns[count]), 0, draws.next());
        assert!(event.is_ok());
        game_state = read_state(pebbles_game);
        assert!(game_state.pebbles_remaining <= before);
        count += 1;
    }
    assert_eq!(game_state.pebbles_remaining, 0);
    assert!(game_state.winner.is_some());
}

#[test]
fn test_init_success() {
    let mut draws = Draws(7);
    init_game_success(DifficultyLevel::Easy, USER_FIRST, &mut draws);
}

#[test]
fn test_state() {
    let mut draws = Draws(11);
    let pebbles_game = init_game_success(DifficultyLevel::Easy, USER_FIRST, &mut draws);
    let game_state = read_state(&pebbles_game);
    assert_eq!(game_state.pebbles_count, PEBBLES_COUNT);
    assert_eq!(game_state.max_pebbles_per_turn, MAX_PEBBLES_PER_TURN);
}

#[test]
fn test_handle_user_first_easy() {
    let mut draws = Draws(13);
    let mut pebbles_game = init_game_success(DifficultyLevel::Easy, USER_FIRST, &mut draws);
    let game_state = read_state(&pebbles_game);
    assert_eq!(game_state.first_player, Player::User);
    let user_turns = create_user_turns(&game_state);
    play_until_over(&mut pebbles_game, &user_turns, &mut draws);
}

#[test]
fn test_handle_program_first_easy() {
    let mut draws = Draws(17);
    let mut pebbles_game = init_game_success(DifficultyLevel::Easy, PROGRAM_FIRST, &mut draws);
    let game_state = read_state(&pebbles_game);
    assert_eq!(game_state.first_player, Player::Program);
    let user_turns = create_user_turns(&game_state);
    play_until_over(&mut pebbles_game, &user_turns, &mut draws);
}

#[test]
fn test_handle_user_first_hard() {
    let mut draws = Draws(19);
    let mut pebbles_game = init_game_success(DifficultyLevel::Hard, USER_FIRST, &mut draws);
    let game_state = read_state(&pebbles_game);
    assert_eq!(game_state.first_player, Player::User);
    let user_turns = create_user_turns(&game_state);
    play_until_over(&mut pebbles_game, &user_turns, &mut draws);
    // The pool starts at a multiple of six: the hard policy wins as second mover.
    assert_eq!(read_state(&pebbles_game).winner, Some(Player::Program));
}

#[test]
fn test_handle_program_first_hard() {
    let mut draws = Draws(23);
    let mut pebbles_game = init_game_success(DifficultyLevel::Hard, PROGRAM_FIRST, &mut draws);
    let game_state = read_state(&pebbles_game);
    assert_eq!(game_state.first_player, Player::Program);
    assert_eq!(game_state.pebbles_remaining, PEBBLES_COUNT - MAX_PEBBLES_PER_TURN);
    let user_turns = create_user_turns(&game_state);
    play_until_over(&mut pebbles_game, &user_turns, &mut draws);
}

#[test]
fn test_handle_give_up() {
    let mut draws = Draws(29);
    let mut pebbles_game = init_game_success(DifficultyLevel::Hard, USER_FIRST, &mut draws);
    let mut game_state = read_state(&pebbles_game);
    let user_turns = create_user_turns(&game_state);

    let mut count = 0;
    loop {
        if game_state.pebbles_remaining <= game_state.pebbles_count / 2 {
            let event = pebbles_game.handle(PebblesAction::GiveUp, 0, draws.next());
            assert_eq!(event, Ok(PebblesEvent::Won(Player::Program)));
            break;
        }
        pebbles_game
            .handle(PebblesAction::Turn(user_turns[count]), 0, draws.next())
            .unwrap();
        game_state = read_state(&pebbles_game);
        count += 1;
    }
    game_state = read_state(&pebbles_game);

    assert_eq!(game_state.winner, Some(Player::Program));
}

fn restart_after_half(first_draw: u32, seed: u32) -> GameState {
    let mut draws = Draws(seed);
    let mut pebbles_game = init_game_success(DifficultyLevel::Hard, USER_FIRST, &mut draws);
    let mut game_state = read_state(&pebbles_game);
    let user_turns = create_user_turns(&game_state);

    let mut count = 0;
    loop {
        if game_state.pebbles_remaining <= game_state.pebbles_count / 2 {
            let restart = PebblesAction::Restart {
                difficulty: DifficultyLevel::Hard,
                pebbles_count: PEBBLES_COUNT,
                max_pebbles_per_turn: MAX_PEBBLES_PER_TURN,
            };
            pebbles_game.handle(restart, first_draw, draws.next()).unwrap();
            break;
        }
        pebbles_game
            .handle(PebblesAction::Turn(user_turns[count]), 0, draws.next())
            .unwrap();
        game_state = read_state(&pebbles_game);
        count += 1;
    }
    read_state(&pebbles_game)
}

#[test]
fn test_handle_restart() {
    for first_draw in [USER_FIRST, PROGRAM_FIRST] {
        let game_state = restart_after_half(first_draw, 31);
        assert_eq!(game_state.pebbles_count, PEBBLES_COUNT);
        if game_state.first_player == Player::Program {
            assert_ne!(game_state.pebbles_count, game_state.pebbles_remaining);
        } else {
            assert_eq!(game_state.pebbles_count, game_state.pebbles_remaining);
        }
    }
}

#[test]
fn test_handle_wrong_input() {
    let mut draws = Draws(37);
    let mut pebbles_game = init_game_success(DifficultyLevel::Easy, USER_FIRST, &mut draws);
    let game_state = read_state(&pebbles_game);

    let mut user_turns = create_user_turns(&game_state);
    user_turns[0] = 0;
    user_turns[1] = 0;
    user_turns[2] = MAX_PEBBLES_PER_TURN + 1;

    for i in 0..3 {
        let before = read_state(&pebbles_game);
        let event = pebbles_game.handle(PebblesAction::Turn(user_turns[i]), 0, draws.next());
        assert_eq!(event, Ok(PebblesEvent::Rejected));
        assert_eq!(read_state(&pebbles_game), before);
    }
    play_until_over(&mut pebbles_game, &user_turns[3..], &mut draws);
    assert!(matches!(pebbles_game.state(), Ok(_)));
    assert_ne!(pebbles_game.state(), Err(GameError::Uninitialized));
}
