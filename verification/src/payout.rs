//! Settlement arithmetic: the stake pool, the platform fee taken from it,
//! and the fixed-odds payout of a winning side bet.

use vstd::prelude::*;
use crate::error::ErrorCode;

verus! {

/// The largest platform fee, in basis points (ten percent).
pub const MAX_FEE_BPS: u16 = 1000;

/// The number of basis points in the whole.
pub const BPS_DENOMINATOR: u64 = 10_000;

/// Whether `fee_bps` is a fee that a platform may charge.
pub open spec fn valid_fee(fee_bps: int) -> bool {
    0 <= fee_bps <= MAX_FEE_BPS
}

/// The pool of a debate: one stake from each side.
pub open spec fn stake_pool(stake_amount: int) -> int {
    2 * stake_amount
}

/// The fee on the pool of a debate, rounded down.
pub open spec fn platform_fee(stake_amount: int, fee_bps: int) -> int {
    stake_pool(stake_amount) * fee_bps / (BPS_DENOMINATOR as int)
}

/// What the winner of a debate receives: the pool less the fee.
pub open spec fn winner_payout(stake_amount: int, fee_bps: int) -> int {
    stake_pool(stake_amount) - platform_fee(stake_amount, fee_bps)
}

/// What a winning bet of `amount` pays: twice the amount less the fee,
/// rounded down, whatever was staked on the other side.
pub open spec fn bet_payout(amount: int, fee_bps: int) -> int {
    amount * 2 * (BPS_DENOMINATOR - fee_bps) / (BPS_DENOMINATOR as int)
}

/// The fee is never negative and never more than a tenth of the pool.
pub proof fn lemma_fee_bounds(stake_amount: int, fee_bps: int)
    requires
        0 <= stake_amount,
        valid_fee(fee_bps),
    ensures
        0 <= platform_fee(stake_amount, fee_bps) <= stake_pool(stake_amount),
        10 * platform_fee(stake_amount, fee_bps) <= stake_pool(stake_amount),
{
    let pool = stake_pool(stake_amount);
    assert(0 <= pool * fee_bps <= pool * 1000) by (nonlinear_arith)
        requires
            0 <= pool,
            0 <= fee_bps <= 1000,
    ;
}

/// Settlement neither creates nor destroys value: the winner's payout and
/// the fee add up to the pool of two stakes.
pub proof fn lemma_settlement_conserves_value(stake_amount: int, fee_bps: int)
    requires
        0 < stake_amount,
        valid_fee(fee_bps),
    ensures
        winner_payout(stake_amount, fee_bps) + platform_fee(stake_amount, fee_bps) == stake_amount
            * 2,
        0 <= platform_fee(stake_amount, fee_bps) <= stake_amount * 2,
        0 <= winner_payout(stake_amount, fee_bps) <= stake_amount * 2,
{
    lemma_fee_bounds(stake_amount, fee_bps);
}

/// A winning bet is never paid more than twice its amount, and exactly
/// twice its amount where no fee is charged.
pub proof fn lemma_bet_payout_bounds(amount: int, fee_bps: int)
    requires
        0 <= amount,
        valid_fee(fee_bps),
    ensures
        0 <= bet_payout(amount, fee_bps) <= 2 * amount,
        fee_bps == 0 ==> bet_payout(amount, fee_bps) == 2 * amount,
{
    let twice = amount * 2;
    let keep = BPS_DENOMINATOR - fee_bps;
    assert(0 <= twice * keep <= twice * 10000) by (nonlinear_arith)
        requires
            0 <= twice,
            0 <= keep <= 10000,
    ;
    if fee_bps == 0 {
        assert(twice * keep == twice * 10000);
    }
}

/// The amounts that a settlement moves out of escrow.
#[derive(Clone, Copy, Debug, PartialEq, Eq, Structural)]
pub struct Settlement {
    /// Both stakes together.
    pub pool: u64,
    /// The part of the pool that goes to the treasury.
    pub fee: u64,
    /// The part of the pool that goes to the winner.
    pub payout: u64,
}

/// Which error, if any, keeps a settlement from being computed.
pub open spec fn settlement_error(stake_amount: u64, fee_bps: u16) -> Option<ErrorCode> {
    if fee_bps > MAX_FEE_BPS {
        Some(ErrorCode::FeeTooHigh)
    } else if stake_pool(stake_amount as int) > u64::MAX {
        Some(ErrorCode::ArithmeticOverflow)
    } else {
        None
    }
}

/// Computes pool, fee and payout for a debate with the given stake per side.
pub fn compute_settlement(stake_amount: u64, fee_bps: u16) -> (r: Result<Settlement, ErrorCode>)
    ensures
        match settlement_error(stake_amount, fee_bps) {
            Some(e) => r == Err::<Settlement, ErrorCode>(e),
            None => {
                &&& r matches Ok(s)
                &&& s.pool == stake_pool(stake_amount as int)
                &&& s.fee == platform_fee(stake_amount as int, fee_bps as int)
                &&& s.payout == winner_payout(stake_amount as int, fee_bps as int)
            },
        },
        r matches Ok(s) ==> s.payout + s.fee == s.pool && s.pool == 2 * stake_amount,
{
    if fee_bps > MAX_FEE_BPS {
        return Err(ErrorCode::FeeTooHigh);
    }
    let pool: u64 = match stake_amount.checked_mul(2) {
        Some(p) => p,
        None => {
            return Err(ErrorCode::ArithmeticOverflow);
        },
    };
    proof {
        lemma_fee_bounds(stake_amount as int, fee_bps as int);
        assert(pool * fee_bps <= pool * 1000) by (nonlinear_arith)
            requires
                0 <= pool,
                0 <= fee_bps <= 1000,
        ;
    }
    let wide: u128 = (pool as u128) * (fee_bps as u128) / (BPS_DENOMINATOR as u128);
    let fee: u64 = wide as u64;
    let payout: u64 = pool - fee;
    Ok(Settlement { pool, fee, payout })
}

/// Which error, if any, keeps the payout of a winning bet from being
/// computed.
pub open spec fn bet_payout_error(amount: u64, fee_bps: u16) -> Option<ErrorCode> {
    if fee_bps > MAX_FEE_BPS {
        Some(ErrorCode::FeeTooHigh)
    } else if bet_payout(amount as int, fee_bps as int) > u64::MAX {
        Some(ErrorCode::ArithmeticOverflow)
    } else {
        None
    }
}

/// Computes the payout of a winning bet of `amount`.
pub fn compute_bet_payout(amount: u64, fee_bps: u16) -> (r: Result<u64, ErrorCode>)
    ensures
        match bet_payout_error(amount, fee_bps) {
            Some(e) => r == Err::<u64, ErrorCode>(e),
            None => r matches Ok(p) && p == bet_payout(amount as int, fee_bps as int),
        },
{
    if fee_bps > MAX_FEE_BPS {
        return Err(ErrorCode::FeeTooHigh);
    }
    let keep: u128 = (BPS_DENOMINATOR - fee_bps as u64) as u128;
    proof {
        assert(amount * 2 * keep <= u64::MAX * 2 * 10000) by (nonlinear_arith)
            requires
                0 <= amount <= u64::MAX,
                0 <= keep <= 10000,
        ;
    }
    let wide: u128 = (amount as u128) * 2 * keep / (BPS_DENOMINATOR as u128);
    if wide > u64::MAX as u128 {
        return Err(ErrorCode::ArithmeticOverflow);
    }
    Ok(wide as u64)
}

} // verus!
