use vstd::prelude::*;

use crate::bank::{settle_match, settle_outcome, settled, BankError, MatchStatus, SettleMatch};
use crate::engine::{GameState, GameStatus};
use crate::identity::Identity;

verus! {

/// Why a result could not be carried from the contest to the escrow.
#[derive(Clone, Copy, Debug, PartialEq, Eq, Structural)]
pub enum CommitError {
    /// The signer is not the contest's results authority.
    Unauthorized,
    /// The contest and the escrow record belong to different matches.
    WrongMatch,
    /// The escrow has already paid out this match.
    AlreadySettled,
    /// The contest has no winner yet.
    NotFinished,
    /// The escrow refused the settlement.
    Bank(BankError),
}

/// The outcome of `signer` committing the result of `game` into the escrow.
pub open spec fn commit_outcome(signer: Identity, game: GameState, ctx: SettleMatch) -> Result<Identity, CommitError> {
    if signer != game.authority {
        Err(CommitError::Unauthorized)
    } else if game.match_id != ctx.match_state.match_id {
        Err(CommitError::WrongMatch)
    } else if ctx.match_state.status is Completed {
        Err(CommitError::AlreadySettled)
    } else if !(game.status is Finished) || game.winner is None {
        Err(CommitError::NotFinished)
    } else if settle_outcome(ctx, game.winner->Some_0) is Err {
        Err(CommitError::Bank(settle_outcome(ctx, game.winner->Some_0)->Err_0))
    } else {
        Ok(game.winner->Some_0)
    }
}

/// Carries the winner of a finished contest into the escrow, which pays out
/// and completes the match; returns the winner. Only the contest's results
/// authority may do so, and a match is paid out at most once.
pub fn commit_result(signer: &Identity, game: &GameState, ctx: &mut SettleMatch) -> (r: Result<Identity, CommitError>)
    ensures
        r == commit_outcome(*signer, *game, *old(ctx)),
        r matches Ok(w) ==> *final(ctx) == settled(*old(ctx), w),
        r is Err ==> *final(ctx) == *old(ctx),
{
    if *signer != game.authority {
        return Err(CommitError::Unauthorized);
    }
    if game.match_id != ctx.match_state.match_id {
        return Err(CommitError::WrongMatch);
    }
    if ctx.match_state.status == MatchStatus::Completed {
        return Err(CommitError::AlreadySettled);
    }
    if game.status != GameStatus::Finished {
        return Err(CommitError::NotFinished);
    }
    let winner = match game.winner {
        Some(w) => w,
        None => return Err(CommitError::NotFinished),
    };
    match settle_match(ctx, winner) {
        Ok(()) => Ok(winner),
        Err(e) => Err(CommitError::Bank(e)),
    }
}

/// Committing is safe to retry: once a commit has paid out a match, every
/// later commit into it fails, the authority's own with `AlreadySettled`.
pub proof fn lemma_commit_once(signer: Identity, game: GameState, ctx: SettleMatch, retry_signer: Identity, retry_game: GameState)
    requires
        commit_outcome(signer, game, ctx) is Ok,
    ensures
        ({
            let after = settled(ctx, commit_outcome(signer, game, ctx)->Ok_0);
            &&& commit_outcome(retry_signer, retry_game, after) is Err
            &&& commit_outcome(signer, game, after) == Err::<Identity, CommitError>(CommitError::AlreadySettled)
        }),
{
}

} // verus!
