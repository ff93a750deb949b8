use vstd::prelude::*;

use crate::identity::{Account, Identity};
use crate::settlement::{compute_settlement, fee_of, pot_of, settlement_fits};

verus! {

/// Where a match stands; it only ever moves forward.
#[derive(Clone, Copy, Debug, PartialEq, Eq, Structural)]
pub enum MatchStatus {
    Waiting,
    Active,
    Completed,
}

/// Why an escrow operation was refused. A refused operation changes nothing.
#[derive(Clone, Copy, Debug, PartialEq, Eq, Structural)]
pub enum BankError {
    MatchFull,
    InvalidState,
    InvalidWinner,
    InvalidAmount,
    SamePlayer,
    MathOverflow,
    InsufficientFunds,
}

/// The escrow record of one match.
#[derive(Clone, Copy, Debug, PartialEq, Eq, Structural)]
pub struct MatchState {
    pub player_one: Identity,
    pub player_two: Option<Identity>,
    pub winner: Option<Identity>,
    /// Receives the house fee.
    pub admin: Identity,
    /// What each player stakes.
    pub amount: u64,
    pub match_id: u64,
    pub status: MatchStatus,
}

impl MatchState {
    /// The record's own invariant, which every operation of the escrow keeps.
    pub open spec fn wf(&self) -> bool {
        &&& self.amount > 0
        &&& (self.status is Waiting ==> self.player_two is None)
        &&& (self.status !is Waiting ==> self.player_two is Some)
        &&& (self.status is Completed <==> self.winner is Some)
        &&& (self.player_two matches Some(p) ==> p != self.player_one)
        &&& (self.winner matches Some(w) ==> self.is_player(w))
    }

    /// Whether `who` plays in this match.
    pub open spec fn is_player(&self, who: Identity) -> bool {
        who == self.player_one || self.player_two == Some(who)
    }
}

/// The accounts that opening a match touches: the record to fill, the opener
/// who pays the first stake, the fee recipient, and the match's vault.
#[derive(Clone, Copy, Debug, PartialEq, Eq, Structural)]
pub struct CreateMatch {
    pub match_state: MatchState,
    pub player: Account,
    pub admin: Identity,
    pub vault: Account,
}

/// The accounts that joining a match touches.
#[derive(Clone, Copy, Debug, PartialEq, Eq, Structural)]
pub struct JoinMatch {
    pub match_state: MatchState,
    pub player: Account,
    pub vault: Account,
}

/// The accounts that settling a match touches. Where the winner is also the
/// fee recipient, `winner` and `admin` are two views of one account, and each
/// view receives both disbursements.
#[derive(Clone, Copy, Debug, PartialEq, Eq, Structural)]
pub struct SettleMatch {
    pub match_state: MatchState,
    pub winner: Account,
    pub admin: Account,
    pub vault: Account,
}

/// Whether `amount` can leave `from` and arrive in `to` without going below
/// zero or past `u64::MAX`.
pub open spec fn transfer_fits(from: Account, to: Account, amount: u64) -> bool {
    &&& from.lamports >= amount
    &&& to.lamports + amount <= u64::MAX
}

/// The error of a transfer that does not fit.
pub open spec fn transfer_error(from: Account, to: Account, amount: u64) -> BankError {
    if from.lamports < amount {
        BankError::InsufficientFunds
    } else {
        BankError::MathOverflow
    }
}

/// `acc` after `amount` left it.
pub open spec fn debited(acc: Account, amount: int) -> Account {
    Account { key: acc.key, lamports: (acc.lamports - amount) as u64 }
}

/// `acc` after `amount` arrived in it.
pub open spec fn credited(acc: Account, amount: int) -> Account {
    Account { key: acc.key, lamports: (acc.lamports + amount) as u64 }
}

/// The outcome of opening match `match_id` with stake `amount`.
pub open spec fn create_outcome(ctx: CreateMatch, amount: u64) -> Result<(), BankError> {
    if amount == 0 {
        Err(BankError::InvalidAmount)
    } else if !transfer_fits(ctx.player, ctx.vault, amount) {
        Err(transfer_error(ctx.player, ctx.vault, amount))
    } else {
        Ok(())
    }
}

/// The accounts after match `match_id` was opened with stake `amount`.
pub open spec fn created(ctx: CreateMatch, match_id: u64, amount: u64) -> CreateMatch {
    CreateMatch {
        match_state: MatchState {
            player_one: ctx.player.key,
            player_two: None,
            winner: None,
            admin: ctx.admin,
            amount,
            match_id,
            status: MatchStatus::Waiting,
        },
        player: debited(ctx.player, amount as int),
        admin: ctx.admin,
        vault: credited(ctx.vault, amount as int),
    }
}

/// The outcome of `ctx.player` joining the match.
pub open spec fn join_outcome(ctx: JoinMatch) -> Result<(), BankError> {
    if ctx.match_state.status != MatchStatus::Waiting {
        Err(BankError::MatchFull)
    } else if ctx.player.key == ctx.match_state.player_one {
        Err(BankError::SamePlayer)
    } else if !transfer_fits(ctx.player, ctx.vault, ctx.match_state.amount) {
        Err(transfer_error(ctx.player, ctx.vault, ctx.match_state.amount))
    } else {
        Ok(())
    }
}

/// The accounts after `ctx.player` joined the match.
pub open spec fn joined(ctx: JoinMatch) -> JoinMatch {
    JoinMatch {
        match_state: MatchState {
            player_two: Some(ctx.player.key),
            status: MatchStatus::Active,
            ..ctx.match_state
        },
        player: debited(ctx.player, ctx.match_state.amount as int),
        vault: credited(ctx.vault, ctx.match_state.amount as int),
    }
}

/// What `acc` receives when the payout goes to `winner` and the fee to `admin`.
pub open spec fn received(acc: Account, winner: Identity, admin: Identity, payout: int, fee: int) -> int {
    (if acc.key == winner { payout } else { 0 }) + (if acc.key == admin { fee } else { 0 })
}

/// The payout of the match in `ctx`, once its settlement fits.
pub open spec fn payout_of(ctx: SettleMatch) -> int {
    pot_of(ctx.match_state.amount as int) - fee_of(pot_of(ctx.match_state.amount as int))
}

/// The fee of the match in `ctx`, once its settlement fits.
pub open spec fn house_fee_of(ctx: SettleMatch) -> int {
    fee_of(pot_of(ctx.match_state.amount as int))
}

/// The outcome of settling the match in `ctx` in favour of `winner`.
pub open spec fn settle_outcome(ctx: SettleMatch, winner: Identity) -> Result<(), BankError> {
    let ms = ctx.match_state;
    let payout = payout_of(ctx);
    let fee = house_fee_of(ctx);
    if ms.status != MatchStatus::Active {
        Err(BankError::InvalidState)
    } else if !ms.is_player(winner) || ctx.winner.key != winner {
        Err(BankError::InvalidWinner)
    } else if ctx.admin.key != ms.admin {
        Err(BankError::InvalidState)
    } else if !settlement_fits(ms.amount as int) {
        Err(BankError::MathOverflow)
    } else if ctx.vault.lamports < payout + fee {
        Err(BankError::InsufficientFunds)
    } else if ctx.winner.lamports + received(ctx.winner, winner, ms.admin, payout, fee) > u64::MAX
        || ctx.admin.lamports + received(ctx.admin, winner, ms.admin, payout, fee) > u64::MAX {
        Err(BankError::MathOverflow)
    } else {
        Ok(())
    }
}

/// The accounts after the match in `ctx` was settled in favour of `winner`.
pub open spec fn settled(ctx: SettleMatch, winner: Identity) -> SettleMatch {
    let ms = ctx.match_state;
    let payout = payout_of(ctx);
    let fee = house_fee_of(ctx);
    SettleMatch {
        match_state: MatchState {
            winner: Some(winner),
            status: MatchStatus::Completed,
            ..ms
        },
        winner: credited(ctx.winner, received(ctx.winner, winner, ms.admin, payout, fee)),
        admin: credited(ctx.admin, received(ctx.admin, winner, ms.admin, payout, fee)),
        vault: debited(ctx.vault, payout + fee),
    }
}

/// Opens match `match_id`: records the opener as player one and moves the
/// first stake from the opener into the vault.
///
/// Refused with `InvalidAmount` for a zero stake, with `InsufficientFunds`
/// when the opener holds less than the stake, and with `MathOverflow` when
/// the vault cannot hold it.
pub fn create_match(ctx: &mut CreateMatch, match_id: u64, amount: u64) -> (r: Result<(), BankError>)
    ensures
        r == create_outcome(*old(ctx), amount),
        r is Ok ==> *final(ctx) == created(*old(ctx), match_id, amount),
        r is Ok ==> final(ctx).match_state.wf(),
        r is Err ==> *final(ctx) == *old(ctx),
{
    if amount == 0 {
        return Err(BankError::InvalidAmount);
    }
    if ctx.player.lamports < amount {
        return Err(BankError::InsufficientFunds);
    }
    if ctx.vault.lamports > u64::MAX - amount {
        return Err(BankError::MathOverflow);
    }
    ctx.match_state = MatchState {
        player_one: ctx.player.key,
        player_two: None,
        winner: None,
        admin: ctx.admin,
        amount,
        match_id,
        status: MatchStatus::Waiting,
    };
    ctx.player.lamports = ctx.player.lamports - amount;
    ctx.vault.lamports = ctx.vault.lamports + amount;
    Ok(())
}

/// Joins a waiting match as player two, moving the second stake into the
/// vault and making the match active.
///
/// Refused with `MatchFull` unless the match is waiting, with `SamePlayer`
/// when the opener joins, then as a transfer of the stake is.
pub fn join_match(ctx: &mut JoinMatch) -> (r: Result<(), BankError>)
    ensures
        r == join_outcome(*old(ctx)),
        r is Ok ==> *final(ctx) == joined(*old(ctx)),
        r is Err ==> *final(ctx) == *old(ctx),
        old(ctx).match_state.wf() ==> final(ctx).match_state.wf(),
{
    if ctx.match_state.status != MatchStatus::Waiting {
        return Err(BankError::MatchFull);
    }
    if ctx.player.key == ctx.match_state.player_one {
        return Err(BankError::SamePlayer);
    }
    let amount = ctx.match_state.amount;
    if ctx.player.lamports < amount {
        return Err(BankError::InsufficientFunds);
    }
    if ctx.vault.lamports > u64::MAX - amount {
        return Err(BankError::MathOverflow);
    }
    ctx.match_state.player_two = Some(ctx.player.key);
    ctx.match_state.status = MatchStatus::Active;
    ctx.player.lamports = ctx.player.lamports - amount;
    ctx.vault.lamports = ctx.vault.lamports + amount;
    Ok(())
}

/// What the account `acc` receives of `payout` (paid to `winner`) and `fee`
/// (paid to `admin`).
fn receipt(acc: &Account, winner: &Identity, admin: &Identity, payout: u64, fee: u64) -> (r: u64)
    requires
        payout + fee <= u64::MAX,
    ensures
        r as int == received(*acc, *winner, *admin, payout as int, fee as int),
{
    let to_winner: u64 = if acc.key == *winner { payout } else { 0 };
    let to_admin: u64 = if acc.key == *admin { fee } else { 0 };
    to_winner + to_admin
}

/// Settles an active match in favour of `winner`: pays the pot less the house
/// fee to the winner and the fee to the admin, both from the vault, and
/// completes the match. Both disbursements happen or neither does.
///
/// Refused with `InvalidState` unless the match is active, with
/// `InvalidWinner` when `winner` does not play in it or `ctx.winner` is not
/// the winner's account, with `InvalidState` when `ctx.admin` is not the
/// match's fee recipient, with `MathOverflow` when the settlement does not
/// fit, with `InsufficientFunds` when the vault holds less than the pot, and
/// with `MathOverflow` when a receiving account cannot hold its share.
pub fn settle_match(ctx: &mut SettleMatch, winner: Identity) -> (r: Result<(), BankError>)
    ensures
        r == settle_outcome(*old(ctx), winner),
        r is Ok ==> *final(ctx) == settled(*old(ctx), winner),
        r is Err ==> *final(ctx) == *old(ctx),
        old(ctx).match_state.wf() ==> final(ctx).match_state.wf(),
{
    if ctx.match_state.status != MatchStatus::Active {
        return Err(BankError::InvalidState);
    }
    let in_match = winner == ctx.match_state.player_one || ctx.match_state.player_two == Some(winner);
    if !in_match || ctx.winner.key != winner {
        return Err(BankError::InvalidWinner);
    }
    if ctx.admin.key != ctx.match_state.admin {
        return Err(BankError::InvalidState);
    }
    let (payout, fee) = match compute_settlement(ctx.match_state.amount) {
        Ok(split) => split,
        Err(e) => return Err(e),
    };
    if ctx.vault.lamports < payout + fee {
        return Err(BankError::InsufficientFunds);
    }
    let admin = ctx.match_state.admin;
    let to_winner = receipt(&ctx.winner, &winner, &admin, payout, fee);
    let to_admin = receipt(&ctx.admin, &winner, &admin, payout, fee);
    if ctx.winner.lamports > u64::MAX - to_winner || ctx.admin.lamports > u64::MAX - to_admin {
        return Err(BankError::MathOverflow);
    }
    ctx.vault.lamports = ctx.vault.lamports - (payout + fee);
    ctx.winner.lamports = ctx.winner.lamports + to_winner;
    ctx.admin.lamports = ctx.admin.lamports + to_admin;
    ctx.match_state.winner = Some(winner);
    ctx.match_state.status = MatchStatus::Completed;
    Ok(())
}

/// A second join of a match that is no longer waiting fails with `MatchFull`
/// and, being refused, changes neither the second player nor the status.
pub proof fn lemma_join_only_while_waiting(ctx: JoinMatch)
    requires
        ctx.match_state.status is Active || ctx.match_state.status is Completed,
    ensures
        join_outcome(ctx) == Err::<(), BankError>(BankError::MatchFull),
{
}

/// Of two joins of one waiting match, serialized in either order, the first
/// that succeeds makes the match active with its player as player two, and
/// the other then fails with `MatchFull`.
pub proof fn lemma_one_of_two_joins(ms: MatchState, vault: Account, first: Account, second: Account)
    requires
        join_outcome(JoinMatch { match_state: ms, player: first, vault }) is Ok,
    ensures
        ({
            let after = joined(JoinMatch { match_state: ms, player: first, vault });
            &&& after.match_state.status is Active
            &&& after.match_state.player_two == Some(first.key)
            &&& join_outcome(JoinMatch { match_state: after.match_state, player: second, vault: after.vault })
                == Err::<(), BankError>(BankError::MatchFull)
        }),
{
}

/// A match is paid out at most once: after a settlement succeeds, any further
/// settlement fails with `InvalidState`, and the vault has paid out exactly
/// the pot, payout and fee together.
pub proof fn lemma_settle_once(ctx: SettleMatch, winner: Identity, again: Identity)
    requires
        settle_outcome(ctx, winner) is Ok,
    ensures
        settle_outcome(settled(ctx, winner), again) == Err::<(), BankError>(BankError::InvalidState),
        payout_of(ctx) + house_fee_of(ctx) == pot_of(ctx.match_state.amount as int),
        settled(ctx, winner).vault.lamports == ctx.vault.lamports - pot_of(ctx.match_state.amount as int),
{
}

/// Over a whole match, opened by one player, joined by another and settled,
/// the vault pays out exactly what it received: it ends where it began.
pub proof fn lemma_vault_returns_to_start(
    open_ctx: CreateMatch,
    match_id: u64,
    amount: u64,
    joiner: Account,
    winner_acc: Account,
    admin_acc: Account,
    winner: Identity,
)
    requires
        create_outcome(open_ctx, amount) is Ok,
        join_outcome(JoinMatch {
            match_state: created(open_ctx, match_id, amount).match_state,
            player: joiner,
            vault: created(open_ctx, match_id, amount).vault,
        }) is Ok,
        ({
            let j = joined(JoinMatch {
                match_state: created(open_ctx, match_id, amount).match_state,
                player: joiner,
                vault: created(open_ctx, match_id, amount).vault,
            });
            settle_outcome(SettleMatch { match_state: j.match_state, winner: winner_acc, admin: admin_acc, vault: j.vault }, winner) is Ok
        }),
    ensures
        ({
            let j = joined(JoinMatch {
                match_state: created(open_ctx, match_id, amount).match_state,
                player: joiner,
                vault: created(open_ctx, match_id, amount).vault,
            });
            let s = SettleMatch { match_state: j.match_state, winner: winner_acc, admin: admin_acc, vault: j.vault };
            settled(s, winner).vault.lamports == open_ctx.vault.lamports
        }),
{
}

} // verus!
