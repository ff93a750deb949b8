use vstd::prelude::*;

use crate::identity::Identity;

verus! {

/// Distance a tank moves per unit of input on each axis.
pub const TANK_SPEED: i64 = 10;

/// Rotation a tank turns per unit of horizontal input.
pub const TANK_TURN_SPEED: i64 = 2;

/// Distance a sumo wrestler moves per unit of input on each axis.
pub const SUMO_SPEED: i64 = 1;

/// The kind of contest, fixed when the game is set up.
#[derive(Clone, Copy, Debug, PartialEq, Eq, Structural)]
pub enum GameType {
    Tanks,
    Sumo,
}

/// Where a contest stands; it only ever moves forward.
#[derive(Clone, Copy, Debug, PartialEq, Eq, Structural)]
pub enum GameStatus {
    Waiting,
    Active,
    Finished,
}

/// The side of the contest that a signer acts for.
#[derive(Clone, Copy, Debug, PartialEq, Eq, Structural)]
pub enum Side {
    PlayerOne,
    PlayerTwo,
    Unauthorized,
}

/// Why a contest operation was refused. A refused operation changes nothing.
#[derive(Clone, Copy, Debug, PartialEq, Eq, Structural)]
pub enum EngineError {
    Unauthorized,
    NotActive,
    InvalidState,
    Overflow,
}

/// A position on the arena floor; the ring is centred on the origin.
#[derive(Clone, Copy, Debug, PartialEq, Eq, Structural)]
pub struct Coords {
    pub x: i64,
    pub y: i64,
}

/// The simulated contest of one match.
#[derive(Clone, Copy, Debug, PartialEq, Eq, Structural)]
pub struct GameState {
    pub game_type: GameType,
    pub match_id: u64,
    /// The only identity that may carry the result back to the escrow.
    pub authority: Identity,
    pub p1: Identity,
    pub p2: Option<Identity>,
    /// Session keys that sign inputs on behalf of each side.
    pub p1_delegate: Option<Identity>,
    pub p2_delegate: Option<Identity>,
    pub p1_coords: Coords,
    pub p2_coords: Coords,
    pub p1_rotation: i64,
    pub p2_rotation: i64,
    pub map_radius: u64,
    /// How many inputs have been accepted.
    pub frame_count: u64,
    pub status: GameStatus,
    pub winner: Option<Identity>,
}

impl GameState {
    /// The contest's own invariant, which every operation keeps. Among other
    /// things, no identity acts for both sides.
    pub open spec fn wf(&self) -> bool {
        &&& (self.status is Waiting <==> self.p2 is None)
        &&& (self.p2 matches Some(p) ==> p != self.p1)
        &&& (self.status is Finished <==> self.winner is Some)
        &&& (self.winner matches Some(w) ==> (w == self.p1 || self.p2 == Some(w)))
        &&& (self.p2_delegate is Some ==> self.p2 is Some)
        &&& (self.p1_delegate matches Some(d) ==> d != self.p1 && self.p2 != Some(d))
        &&& (self.p2_delegate matches Some(d) ==> {
            &&& d != self.p1
            &&& self.p2 != Some(d)
            &&& self.p1_delegate != Some(d)
        })
    }
}

/// The accounts that setting up a contest touches; `payer` becomes the
/// results authority.
#[derive(Clone, Copy, Debug, PartialEq, Eq, Structural)]
pub struct InitGame {
    pub game_state: GameState,
    pub payer: Identity,
}

/// A contest and the key that signed an input to it.
#[derive(Clone, Copy, Debug, PartialEq, Eq, Structural)]
pub struct ApplyInput {
    pub game_state: GameState,
    pub player: Identity,
}

/// A contest whose ring-out is to be checked.
#[derive(Clone, Copy, Debug, PartialEq, Eq, Structural)]
pub struct CheckWin {
    pub game_state: GameState,
}

/// `v` clamped into the range of `i64`.
pub open spec fn clamp_i64(v: int) -> i64 {
    if v > i64::MAX {
        i64::MAX
    } else if v < i64::MIN {
        i64::MIN
    } else {
        v as i64
    }
}

/// The squared distance of `c` from the centre of the ring.
pub open spec fn distance_sq(c: Coords) -> int {
    c.x * c.x + c.y * c.y
}

/// Whether `c` lies strictly outside the ring of the given radius.
pub open spec fn out_of_ring(c: Coords, radius: u64) -> bool {
    distance_sq(c) > radius * radius
}

/// The side that `signer` acts for: a player or the session key bound to
/// that player. Player one is looked up first.
pub open spec fn side_of(s: GameState, signer: Identity) -> Side {
    if signer == s.p1 || s.p1_delegate == Some(signer) {
        Side::PlayerOne
    } else if s.p2 == Some(signer) || s.p2_delegate == Some(signer) {
        Side::PlayerTwo
    } else {
        Side::Unauthorized
    }
}

/// The contest in which the game was set up, before anyone moved.
pub open spec fn initial_game(
    game_type: GameType,
    match_id: u64,
    authority: Identity,
    p1: Identity,
    p2: Option<Identity>,
    map_radius: u64,
    spawn_offset: u32,
) -> GameState {
    GameState {
        game_type,
        match_id,
        authority,
        p1,
        p2,
        p1_delegate: None,
        p2_delegate: None,
        p1_coords: Coords { x: -(spawn_offset as int) as i64, y: 0 },
        p2_coords: Coords { x: spawn_offset as i64, y: 0 },
        p1_rotation: 0,
        p2_rotation: 0,
        map_radius,
        frame_count: 0,
        status: if p2 is Some { GameStatus::Active } else { GameStatus::Waiting },
        winner: None,
    }
}

/// `c` moved by `(dx, dy)` units of `speed`, each axis clamped.
pub open spec fn shifted(c: Coords, dx: i16, dy: i16, speed: i64) -> Coords {
    Coords { x: clamp_i64(c.x + dx * speed), y: clamp_i64(c.y + dy * speed) }
}

/// The contest after `side` applied input `(x, y)`, before the ring-out check.
pub open spec fn moved(s: GameState, side: Side, x: i16, y: i16) -> GameState {
    let speed = if s.game_type is Tanks { TANK_SPEED } else { SUMO_SPEED };
    let turn = if s.game_type is Tanks { x * TANK_TURN_SPEED } else { 0 };
    if side is PlayerOne {
        GameState {
            p1_coords: shifted(s.p1_coords, x, y, speed),
            p1_rotation: clamp_i64(s.p1_rotation + turn),
            ..s
        }
    } else {
        GameState {
            p2_coords: shifted(s.p2_coords, x, y, speed),
            p2_rotation: clamp_i64(s.p2_rotation + turn),
            ..s
        }
    }
}

/// The contest after the ring-out check: while it is active, a player outside
/// the ring loses to the other. Player one is checked first, so when both are
/// out player two wins.
pub open spec fn rung_out(s: GameState) -> GameState {
    if s.status is Active && out_of_ring(s.p1_coords, s.map_radius) {
        GameState { status: GameStatus::Finished, winner: s.p2, ..s }
    } else if s.status is Active && out_of_ring(s.p2_coords, s.map_radius) {
        GameState { status: GameStatus::Finished, winner: Some(s.p1), ..s }
    } else {
        s
    }
}

/// The outcome of an input signed by `signer`.
pub open spec fn input_outcome(s: GameState, signer: Identity) -> Result<(), EngineError> {
    if side_of(s, signer) is Unauthorized {
        Err(EngineError::Unauthorized)
    } else if !(s.status is Active) {
        Err(EngineError::NotActive)
    } else if s.frame_count == u64::MAX {
        Err(EngineError::Overflow)
    } else {
        Ok(())
    }
}

/// The contest after an accepted input `(x, y)` signed by `signer`.
pub open spec fn after_input(s: GameState, signer: Identity, x: i16, y: i16) -> GameState {
    let m = moved(s, side_of(s, signer), x, y);
    rung_out(GameState { frame_count: (s.frame_count + 1) as u64, ..m })
}

/// `v + d`, clamped into the range of `i64`.
fn saturating_shift(v: i64, d: i64) -> (r: i64)
    ensures
        r == clamp_i64(v + d),
{
    match v.checked_add(d) {
        Some(s) => s,
        None => if d > 0 {
            i64::MAX
        } else {
            i64::MIN
        },
    }
}

/// The squared distance of `c` from the centre, computed without overflow.
fn distance_sq_of(c: &Coords) -> (r: u128)
    ensures
        r as int == distance_sq(*c),
{
    let x = c.x as i128;
    let y = c.y as i128;
    assert(x * x <= 0x4000_0000_0000_0000_0000_0000_0000_0000) by (nonlinear_arith)
        requires
            -0x8000_0000_0000_0000 <= x <= 0x7fff_ffff_ffff_ffff,
    ;
    assert(y * y <= 0x4000_0000_0000_0000_0000_0000_0000_0000) by (nonlinear_arith)
        requires
            -0x8000_0000_0000_0000 <= y <= 0x7fff_ffff_ffff_ffff,
    ;
    assert(0 <= x * x && 0 <= y * y) by (nonlinear_arith);
    let xx = (x * x) as u128;
    let yy = (y * y) as u128;
    xx + yy
}

/// Whether `c` lies strictly outside the ring of the given radius.
pub fn is_out_of_ring(c: &Coords, radius: u64) -> (r: bool)
    ensures
        r == out_of_ring(*c, radius),
{
    let r = radius as u128;
    assert(r * r <= 0xffff_ffff_ffff_fffe_0000_0000_0000_0001) by (nonlinear_arith)
        requires
            0 <= r <= 0xffff_ffff_ffff_ffff,
    ;
    distance_sq_of(c) > r * r
}

/// The side that `signer` acts for in `state`.
pub fn resolve_side(signer: &Identity, state: &GameState) -> (r: Side)
    ensures
        r == side_of(*state, *signer),
{
    if *signer == state.p1 || state.p1_delegate == Some(*signer) {
        Side::PlayerOne
    } else if state.p2 == Some(*signer) || state.p2_delegate == Some(*signer) {
        Side::PlayerTwo
    } else {
        Side::Unauthorized
    }
}

/// Sets up the contest of match `match_id` between `p1` and, if already
/// known, `p2`, on a ring of radius `map_radius`. The players start
/// `spawn_offset` either side of the centre; the contest is active at once
/// when both players are known.
pub fn init_game(
    ctx: &mut InitGame,
    game_type: GameType,
    match_id: u64,
    p1: Identity,
    p2: Option<Identity>,
    map_radius: u64,
    spawn_offset: u32,
) -> (r: Result<(), EngineError>)
    ensures
        r is Err <==> p2 == Some(p1),
        r is Err ==> r == Err::<(), EngineError>(EngineError::InvalidState) && *final(ctx) == *old(ctx),
        r is Ok ==> *final(ctx) == (InitGame {
            game_state: initial_game(game_type, match_id, old(ctx).payer, p1, p2, map_radius, spawn_offset),
            payer: old(ctx).payer,
        }),
        r is Ok ==> final(ctx).game_state.wf(),
{
    if p2 == Some(p1) {
        return Err(EngineError::InvalidState);
    }
    let offset = spawn_offset as i64;
    ctx.game_state = GameState {
        game_type,
        match_id,
        authority: ctx.payer,
        p1,
        p2,
        p1_delegate: None,
        p2_delegate: None,
        p1_coords: Coords { x: -offset, y: 0 },
        p2_coords: Coords { x: offset, y: 0 },
        p1_rotation: 0,
        p2_rotation: 0,
        map_radius,
        frame_count: 0,
        status: if p2.is_some() { GameStatus::Active } else { GameStatus::Waiting },
        winner: None,
    };
    Ok(())
}

/// The outcome of `who` joining the contest as player two.
pub open spec fn join_game_outcome(s: GameState, who: Identity) -> Result<(), EngineError> {
    if !(s.status is Waiting) || !(side_of(s, who) is Unauthorized) {
        Err(EngineError::InvalidState)
    } else {
        Ok(())
    }
}

/// Binds `who` as player two of a waiting contest, which makes it active.
/// Refused with `InvalidState` unless the contest is waiting and `who` acts
/// for no side yet.
pub fn join_game(state: &mut GameState, who: Identity) -> (r: Result<(), EngineError>)
    ensures
        r == join_game_outcome(*old(state), who),
        r is Ok ==> *final(state) == (GameState { p2: Some(who), status: GameStatus::Active, ..*old(state) }),
        r is Err ==> *final(state) == *old(state),
        old(state).wf() ==> final(state).wf(),
{
    if state.status != GameStatus::Waiting || resolve_side(&who, state) != Side::Unauthorized {
        return Err(EngineError::InvalidState);
    }
    state.p2 = Some(who);
    state.status = GameStatus::Active;
    Ok(())
}

/// The outcome of `principal` binding the session key `delegate`.
pub open spec fn authorize_outcome(s: GameState, principal: Identity, delegate: Identity) -> Result<(), EngineError> {
    let side = side_of(s, principal);
    if s.status is Finished {
        Err(EngineError::InvalidState)
    } else if !(principal == s.p1 || s.p2 == Some(principal)) {
        Err(EngineError::Unauthorized)
    } else if (principal == s.p1 && s.p1_delegate is Some) || (principal != s.p1 && s.p2_delegate is Some) {
        Err(EngineError::InvalidState)
    } else if !(side_of(s, delegate) is Unauthorized) {
        Err(EngineError::InvalidState)
    } else {
        Ok(())
    }
}

/// The contest after `principal` bound the session key `delegate`.
pub open spec fn authorized(s: GameState, principal: Identity, delegate: Identity) -> GameState {
    if principal == s.p1 {
        GameState { p1_delegate: Some(delegate), ..s }
    } else {
        GameState { p2_delegate: Some(delegate), ..s }
    }
}

/// Lets the session key `delegate` sign inputs for the side of the player
/// `principal` until the contest is finished. A side holds at most one session
/// key, which cannot be replaced, and a key already acting for a side is
/// refused.
pub fn authorize_session(state: &mut GameState, principal: Identity, delegate: Identity) -> (r: Result<(), EngineError>)
    ensures
        r == authorize_outcome(*old(state), principal, delegate),
        r is Ok ==> *final(state) == authorized(*old(state), principal, delegate),
        r is Err ==> *final(state) == *old(state),
        old(state).wf() ==> final(state).wf(),
{
    if state.status == GameStatus::Finished {
        return Err(EngineError::InvalidState);
    }
    let is_p1 = principal == state.p1;
    if !(is_p1 || state.p2 == Some(principal)) {
        return Err(EngineError::Unauthorized);
    }
    if (is_p1 && state.p1_delegate.is_some()) || (!is_p1 && state.p2_delegate.is_some()) {
        return Err(EngineError::InvalidState);
    }
    if resolve_side(&delegate, state) != Side::Unauthorized {
        return Err(EngineError::InvalidState);
    }
    if is_p1 {
        state.p1_delegate = Some(delegate);
    } else {
        state.p2_delegate = Some(delegate);
    }
    Ok(())
}

/// Runs the ring-out check on `state`.
fn ring_out(state: &mut GameState)
    ensures
        *final(state) == rung_out(*old(state)),
{
    if state.status == GameStatus::Active {
        if is_out_of_ring(&state.p1_coords, state.map_radius) {
            state.status = GameStatus::Finished;
            state.winner = state.p2;
        } else if is_out_of_ring(&state.p2_coords, state.map_radius) {
            state.status = GameStatus::Finished;
            state.winner = Some(state.p1);
        }
    }
}

/// Applies one input `(x, y)` signed by `ctx.player` to the side it acts
/// for, then checks for a ring-out. Tanks turn by `x` and move by both axes
/// at tank speed; sumo wrestlers move by both axes. Positions saturate at the
/// range of `i64`, so that a runaway input ends the contest instead of
/// aborting it. The action button is read by neither kind of contest.
///
/// Refused with `Unauthorized` when the signer acts for neither side, then
/// with `NotActive` unless the contest is active, then with `Overflow` once
/// the frame count is exhausted.
pub fn apply_input(ctx: &mut ApplyInput, x: i16, y: i16, _action: bool) -> (r: Result<(), EngineError>)
    ensures
        r == input_outcome(old(ctx).game_state, old(ctx).player),
        r is Ok ==> final(ctx).game_state == after_input(old(ctx).game_state, old(ctx).player, x, y),
        r is Err ==> final(ctx).game_state == old(ctx).game_state,
        final(ctx).player == old(ctx).player,
        old(ctx).game_state.wf() ==> final(ctx).game_state.wf(),
{
    let side = resolve_side(&ctx.player, &ctx.game_state);
    if side == Side::Unauthorized {
        return Err(EngineError::Unauthorized);
    }
    if ctx.game_state.status != GameStatus::Active {
        return Err(EngineError::NotActive);
    }
    if ctx.game_state.frame_count == u64::MAX {
        return Err(EngineError::Overflow);
    }
    let tanks = ctx.game_state.game_type == GameType::Tanks;
    let xi = x as i64;
    let yi = y as i64;
    assert(-327680 <= xi * 10 <= 327670 && -327680 <= yi * 10 <= 327670) by (nonlinear_arith)
        requires
            -32768 <= xi <= 32767,
            -32768 <= yi <= 32767,
    ;
    let turn: i64 = if tanks { xi * TANK_TURN_SPEED } else { 0 };
    let dx: i64 = if tanks { xi * TANK_SPEED } else { xi * SUMO_SPEED };
    let dy: i64 = if tanks { yi * TANK_SPEED } else { yi * SUMO_SPEED };
    let state = &mut ctx.game_state;
    if side == Side::PlayerOne {
        state.p1_coords = Coords { x: saturating_shift(state.p1_coords.x, dx), y: saturating_shift(state.p1_coords.y, dy) };
        state.p1_rotation = saturating_shift(state.p1_rotation, turn);
    } else {
        state.p2_coords = Coords { x: saturating_shift(state.p2_coords.x, dx), y: saturating_shift(state.p2_coords.y, dy) };
        state.p2_rotation = saturating_shift(state.p2_rotation, turn);
    }
    state.frame_count = state.frame_count + 1;
    ring_out(state);
    Ok(())
}

/// Checks for a ring-out and returns the winner once the contest is finished.
pub fn check_win(ctx: &mut CheckWin) -> (r: Option<Identity>)
    ensures
        final(ctx).game_state == rung_out(old(ctx).game_state),
        r == final(ctx).game_state.winner,
        old(ctx).game_state.wf() ==> final(ctx).game_state.wf(),
{
    ring_out(&mut ctx.game_state);
    ctx.game_state.winner
}

/// An input signed by a key that acts for neither side is refused with
/// `Unauthorized`; a refused input changes nothing, so any number of them leave
/// the positions and the frame count as they were. An accepted input advances
/// the frame count by exactly one.
pub proof fn lemma_inputs_and_frames(s: GameState, signer: Identity, x: i16, y: i16)
    ensures
        side_of(s, signer) is Unauthorized ==> input_outcome(s, signer) == Err::<(), EngineError>(EngineError::Unauthorized),
        input_outcome(s, signer) is Ok ==> after_input(s, signer, x, y).frame_count == s.frame_count + 1,
{
}

/// An accepted input moves only the side that its signer acts for.
pub proof fn lemma_input_moves_own_side(s: GameState, signer: Identity, x: i16, y: i16)
    requires
        input_outcome(s, signer) is Ok,
    ensures
        side_of(s, signer) is PlayerOne ==> ({
            let t = after_input(s, signer, x, y);
            t.p2_coords == s.p2_coords && t.p2_rotation == s.p2_rotation
        }),
        side_of(s, signer) is PlayerTwo ==> ({
            let t = after_input(s, signer, x, y);
            t.p1_coords == s.p1_coords && t.p1_rotation == s.p1_rotation
        }),
{
}

/// A position exactly on the ring does not end the contest; one a unit of
/// squared distance beyond it does.
pub proof fn lemma_ring_boundary(c: Coords, radius: u64)
    ensures
        distance_sq(c) == radius * radius ==> !out_of_ring(c, radius),
        distance_sq(c) == radius * radius + 1 ==> out_of_ring(c, radius),
{
}

} // verus!
