use vstd::prelude::*;

use crate::bank::BankError;

verus! {

/// Basis points taken by the house from the pot.
pub const FEE_BPS: u64 = 200;

/// Denominator of `FEE_BPS`.
pub const BPS_DENOMINATOR: u64 = 10_000;

/// The pot held in escrow once both players have staked `stake`.
pub open spec fn pot_of(stake: int) -> int {
    2 * stake
}

/// The house fee on a pot, truncated toward zero.
pub open spec fn fee_of(total: int) -> int {
    (total * FEE_BPS as int) / (BPS_DENOMINATOR as int)
}

/// Whether every intermediate amount of the settlement of `stake` fits in a `u64`.
pub open spec fn settlement_fits(stake: int) -> bool {
    pot_of(stake) * (FEE_BPS as int) <= u64::MAX as int
}

/// Splits the pot of a match with the given stake into `(payout, fee)`.
/// Fails with `MathOverflow` exactly when an intermediate amount leaves `u64`.
pub fn compute_settlement(stake: u64) -> (r: Result<(u64, u64), BankError>)
    ensures
        r is Ok <==> settlement_fits(stake as int),
        r is Err ==> r == Err::<(u64, u64), BankError>(BankError::MathOverflow),
        r matches Ok((payout, fee)) ==> {
            &&& fee as int == fee_of(pot_of(stake as int))
            &&& payout as int == pot_of(stake as int) - fee as int
        },
{
    let total = match stake.checked_mul(2) {
        Some(t) => t,
        None => return Err(BankError::MathOverflow),
    };
    let scaled = match total.checked_mul(FEE_BPS) {
        Some(s) => s,
        None => return Err(BankError::MathOverflow),
    };
    let fee = scaled / BPS_DENOMINATOR;
    let payout = match total.checked_sub(fee) {
        Some(p) => p,
        None => return Err(BankError::MathOverflow),
    };
    Ok((payout, fee))
}

/// For every positive stake whose settlement fits, the payout and the fee
/// add up to the whole pot of twice the stake, the fee is two percent of the
/// pot rounded down, and neither part is negative.
pub proof fn lemma_settlement_splits_pot(stake: u64)
    requires
        stake > 0,
        settlement_fits(stake as int),
    ensures
        ({
            let fee = fee_of(pot_of(stake as int));
            let payout = pot_of(stake as int) - fee;
            &&& payout + fee == 2 * stake
            &&& fee == (2 * stake * 200) / 10000
            &&& 0 <= fee <= payout
        }),
{
    let pot = pot_of(stake as int);
    assert(0 <= (pot * 200) / 10000 <= pot) by (nonlinear_arith)
        requires
            pot >= 0,
    ;
    assert((pot * 200) / 10000 <= pot - (pot * 200) / 10000) by (nonlinear_arith)
        requires
            pot >= 0,
    ;
}

} // verus!
