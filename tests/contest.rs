use wager_duel::engine::{
    apply_input, authorize_session, check_win, init_game, is_out_of_ring, join_game, resolve_side,
    ApplyInput, CheckWin, Coords, EngineError, GameState, GameStatus, GameType, InitGame, Side,
};
use wager_duel::identity::Identity;

fn id(n: u128) -> Identity {
    Identity { hi: 3, lo: n }
}

const PLAYER_ONE: u128 = 1;
const PLAYER_TWO: u128 = 2;
const ORACLE: u128 = 5;
const OUTSIDER: u128 = 6;
const KEY1: u128 = 11;
const KEY2: u128 = 12;

fn blank() -> GameState {
    GameState {
        game_type: GameType::Sumo,
        match_id: 0,
        authority: id(0),
        p1: id(0),
        p2: None,
        p1_delegate: None,
        p2_delegate: None,
        p1_coords: Coords { x: 0, y: 0 },
        p2_coords: Coords { x: 0, y: 0 },
        p1_rotation: 0,
        p2_rotation: 0,
        map_radius: 0,
        frame_count: 0,
        status: GameStatus::Waiting,
        winner: None,
    }
}

fn game(kind: GameType, p2: Option<u128>, radius: u64, offset: u32) -> GameState {
    let mut ctx = InitGame { game_state: blank(), payer: id(ORACLE) };
    assert_eq!(init_game(&mut ctx, kind, 8, id(PLAYER_ONE), p2.map(id), radius, offset), Ok(()));
    ctx.game_state
}

fn send(state: GameState, signer: u128, x: i16, y: i16) -> (ApplyInput, Result<(), EngineError>) {
    let mut ctx = ApplyInput { game_state: state, player: id(signer) };
    let r = apply_input(&mut ctx, x, y, false);
    (ctx, r)
}

#[test]
fn init_places_players_either_side() {
    let g = game(GameType::Tanks, Some(PLAYER_TWO), 100, 25);
    assert_eq!(g.game_type, GameType::Tanks);
    assert_eq!(g.match_id, 8);
    assert_eq!(g.authority, id(ORACLE));
    assert_eq!(g.p1_coords, Coords { x: -25, y: 0 });
    assert_eq!(g.p2_coords, Coords { x: 25, y: 0 });
    assert_eq!(g.p1_rotation, 0);
    assert_eq!(g.p2_rotation, 0);
    assert_eq!(g.map_radius, 100);
    assert_eq!(g.frame_count, 0);
    assert_eq!(g.status, GameStatus::Active);
    assert_eq!(g.winner, None);
}

#[test]
fn init_without_second_player_waits() {
    let g = game(GameType::Sumo, None, 100, 25);
    assert_eq!(g.status, GameStatus::Waiting);
}

#[test]
fn init_against_oneself_is_refused() {
    let mut ctx = InitGame { game_state: blank(), payer: id(ORACLE) };
    let before = ctx;
    let r = init_game(&mut ctx, GameType::Sumo, 8, id(PLAYER_ONE), Some(id(PLAYER_ONE)), 100, 25);
    assert_eq!(r, Err(EngineError::InvalidState));
    assert_eq!(ctx, before);
}

#[test]
fn join_game_activates_waiting_contest() {
    let mut g = game(GameType::Sumo, None, 100, 25);
    assert_eq!(authorize_session(&mut g, id(PLAYER_ONE), id(KEY1)), Ok(()));
    assert_eq!(join_game(&mut g, id(PLAYER_ONE)), Err(EngineError::InvalidState));
    assert_eq!(join_game(&mut g, id(KEY1)), Err(EngineError::InvalidState));
    assert_eq!(join_game(&mut g, id(PLAYER_TWO)), Ok(()));
    assert_eq!(g.p2, Some(id(PLAYER_TWO)));
    assert_eq!(g.status, GameStatus::Active);
    let before = g;
    assert_eq!(join_game(&mut g, id(OUTSIDER)), Err(EngineError::InvalidState));
    assert_eq!(g, before);
}

#[test]
fn sides_resolve_players_and_session_keys() {
    let mut g = game(GameType::Sumo, Some(PLAYER_TWO), 100, 25);
    assert_eq!(resolve_side(&id(PLAYER_ONE), &g), Side::PlayerOne);
    assert_eq!(resolve_side(&id(PLAYER_TWO), &g), Side::PlayerTwo);
    assert_eq!(resolve_side(&id(KEY1), &g), Side::Unauthorized);
    assert_eq!(authorize_session(&mut g, id(PLAYER_ONE), id(KEY1)), Ok(()));
    assert_eq!(authorize_session(&mut g, id(PLAYER_TWO), id(KEY2)), Ok(()));
    assert_eq!(resolve_side(&id(KEY1), &g), Side::PlayerOne);
    assert_eq!(resolve_side(&id(KEY2), &g), Side::PlayerTwo);
    assert_eq!(resolve_side(&id(OUTSIDER), &g), Side::Unauthorized);
}

#[test]
fn session_cannot_be_replaced_or_shared() {
    let mut g = game(GameType::Sumo, Some(PLAYER_TWO), 100, 25);
    assert_eq!(authorize_session(&mut g, id(PLAYER_ONE), id(KEY1)), Ok(()));
    let before = g;
    assert_eq!(authorize_session(&mut g, id(PLAYER_ONE), id(KEY2)), Err(EngineError::InvalidState));
    assert_eq!(authorize_session(&mut g, id(PLAYER_TWO), id(KEY1)), Err(EngineError::InvalidState));
    assert_eq!(authorize_session(&mut g, id(PLAYER_TWO), id(PLAYER_ONE)), Err(EngineError::InvalidState));
    assert_eq!(authorize_session(&mut g, id(OUTSIDER), id(KEY2)), Err(EngineError::Unauthorized));
    assert_eq!(g, before);
}

#[test]
fn session_after_finish_is_refused() {
    let g = game(GameType::Sumo, Some(PLAYER_TWO), 0, 1);
    let mut c = CheckWin { game_state: g };
    assert_eq!(check_win(&mut c), Some(id(PLAYER_TWO)));
    let mut f = c.game_state;
    assert_eq!(authorize_session(&mut f, id(PLAYER_ONE), id(KEY1)), Err(EngineError::InvalidState));
}

#[test]
fn sumo_input_moves_one_unit_per_step() {
    let g = game(GameType::Sumo, Some(PLAYER_TWO), 100, 25);
    let (ctx, r) = send(g, PLAYER_TWO, -3, 4);
    assert_eq!(r, Ok(()));
    assert_eq!(ctx.game_state.p2_coords, Coords { x: 22, y: 4 });
    assert_eq!(ctx.game_state.p1_coords, Coords { x: -25, y: 0 });
    assert_eq!(ctx.game_state.p2_rotation, 0);
    assert_eq!(ctx.game_state.frame_count, 1);
    assert_eq!(ctx.game_state.status, GameStatus::Active);
}

#[test]
fn tank_input_turns_and_moves_at_tank_speed() {
    let g = game(GameType::Tanks, Some(PLAYER_TWO), 100, 25);
    let (ctx, r) = send(g, PLAYER_ONE, 3, -2);
    assert_eq!(r, Ok(()));
    assert_eq!(ctx.game_state.p1_coords, Coords { x: 5, y: -20 });
    assert_eq!(ctx.game_state.p1_rotation, 6);
    assert_eq!(ctx.game_state.frame_count, 1);
}

#[test]
fn session_key_moves_its_side() {
    let mut g = game(GameType::Sumo, Some(PLAYER_TWO), 100, 25);
    assert_eq!(authorize_session(&mut g, id(PLAYER_TWO), id(KEY2)), Ok(()));
    let (ctx, r) = send(g, KEY2, 1, 1);
    assert_eq!(r, Ok(()));
    assert_eq!(ctx.game_state.p2_coords, Coords { x: 26, y: 1 });
}

#[test]
fn unauthorized_inputs_change_nothing() {
    let g = game(GameType::Sumo, Some(PLAYER_TWO), 100, 25);
    let mut ctx = ApplyInput { game_state: g, player: id(OUTSIDER) };
    for _ in 0..5 {
        assert_eq!(apply_input(&mut ctx, 100, 100, true), Err(EngineError::Unauthorized));
    }
    assert_eq!(ctx.game_state, g);
    assert_eq!(ctx.game_state.frame_count, 0);
}

#[test]
fn input_to_waiting_contest_is_refused() {
    let g = game(GameType::Sumo, None, 100, 25);
    let (ctx, r) = send(g, PLAYER_ONE, 1, 0);
    assert_eq!(r, Err(EngineError::NotActive));
    assert_eq!(ctx.game_state, g);
}

#[test]
fn input_after_last_frame_is_refused() {
    let mut g = game(GameType::Sumo, Some(PLAYER_TWO), 100, 25);
    g.frame_count = u64::MAX;
    let (ctx, r) = send(g, PLAYER_ONE, 1, 0);
    assert_eq!(r, Err(EngineError::Overflow));
    assert_eq!(ctx.game_state, g);
}

#[test]
fn position_saturates_and_rings_out() {
    let mut g = game(GameType::Tanks, Some(PLAYER_TWO), 100, 25);
    g.p1_coords = Coords { x: i64::MAX - 5, y: i64::MIN + 5 };
    g.p1_rotation = i64::MAX - 1;
    let (ctx, r) = send(g, PLAYER_ONE, 100, -100);
    assert_eq!(r, Ok(()));
    assert_eq!(ctx.game_state.p1_coords, Coords { x: i64::MAX, y: i64::MIN });
    assert_eq!(ctx.game_state.p1_rotation, i64::MAX);
    assert_eq!(ctx.game_state.status, GameStatus::Finished);
    assert_eq!(ctx.game_state.winner, Some(id(PLAYER_TWO)));
}

#[test]
fn ring_boundary_is_inside() {
    assert!(!is_out_of_ring(&Coords { x: 3, y: 4 }, 5));
    assert!(is_out_of_ring(&Coords { x: 5, y: 1 }, 5));
    assert!(!is_out_of_ring(&Coords { x: -100, y: 0 }, 100));
    assert!(is_out_of_ring(&Coords { x: -100, y: 1 }, 100));
    assert!(is_out_of_ring(&Coords { x: i64::MIN, y: i64::MIN }, 1u64 << 63));
    assert!(!is_out_of_ring(&Coords { x: i64::MIN, y: 0 }, 1u64 << 63));
    assert!(is_out_of_ring(&Coords { x: i64::MIN, y: 1 }, 1u64 << 63));
    assert!(!is_out_of_ring(&Coords { x: i64::MIN, y: i64::MIN }, u64::MAX));
}

#[test]
fn input_onto_ring_edge_keeps_playing() {
    let g = game(GameType::Sumo, Some(PLAYER_TWO), 5, 0);
    let (ctx, r) = send(g, PLAYER_ONE, 3, 4);
    assert_eq!(r, Ok(()));
    assert_eq!(ctx.game_state.status, GameStatus::Active);
    let (ctx, r) = send(ctx.game_state, PLAYER_ONE, 0, -3);
    assert_eq!(r, Ok(()));
    let (ctx, r) = send(ctx.game_state, PLAYER_ONE, 2, 0);
    assert_eq!(r, Ok(()));
    assert_eq!(ctx.game_state.p1_coords, Coords { x: 5, y: 1 });
    assert_eq!(ctx.game_state.status, GameStatus::Finished);
    assert_eq!(ctx.game_state.winner, Some(id(PLAYER_TWO)));
}

#[test]
fn second_player_out_gives_first_the_win() {
    let g = game(GameType::Sumo, Some(PLAYER_TWO), 30, 25);
    let (ctx, r) = send(g, PLAYER_TWO, 6, 0);
    assert_eq!(r, Ok(()));
    assert_eq!(ctx.game_state.status, GameStatus::Finished);
    assert_eq!(ctx.game_state.winner, Some(id(PLAYER_ONE)));
    let (after, r) = send(ctx.game_state, PLAYER_ONE, 1, 0);
    assert_eq!(r, Err(EngineError::NotActive));
    assert_eq!(after.game_state, ctx.game_state);
}

#[test]
fn both_out_player_one_checked_first() {
    let mut g = game(GameType::Sumo, Some(PLAYER_TWO), 10, 50);
    assert_eq!(g.status, GameStatus::Active);
    let mut c = CheckWin { game_state: g };
    assert_eq!(check_win(&mut c), Some(id(PLAYER_TWO)));
    assert_eq!(c.game_state.status, GameStatus::Finished);
    g.p1_coords = Coords { x: 0, y: 0 };
    let mut c = CheckWin { game_state: g };
    assert_eq!(check_win(&mut c), Some(id(PLAYER_ONE)));
}

#[test]
fn check_win_inside_ring_changes_nothing() {
    let g = game(GameType::Tanks, Some(PLAYER_TWO), 100, 25);
    let mut c = CheckWin { game_state: g };
    assert_eq!(check_win(&mut c), None);
    assert_eq!(c.game_state, g);
}
