//! When escrow can pay every claim.
//!
//! A winning bet is paid at fixed odds, not out of what the losing side
//! staked. So escrow is sure to cover every claim only as long as it holds
//! what is still owed to the unclaimed winning bets; that is the case after
//! settlement whenever the winning side was backed with no more than the
//! losing side. The proofs here state both facts. Where the winning side
//! was backed more heavily, a claim can find escrow short, and is refused.

use vstd::prelude::*;
use crate::address::Address;
use crate::bet::Bet;
use crate::betting::{bet_won, claim_error, claim_payout, claimed};
use crate::book::{holds, lemma_held_has_position, position};
use crate::debate::{Debate, DebatePosition};
use crate::error::ErrorCode;
use crate::ledger::{debited, LedgerAccount};
use crate::payout::{bet_payout, lemma_bet_payout_bounds, valid_fee};
use crate::platform::Platform;
use crate::registry::User;

verus! {

/// The other side.
pub open spec fn opposite(side: DebatePosition) -> DebatePosition {
    match side {
        DebatePosition::Pro => DebatePosition::Con,
        DebatePosition::Con => DebatePosition::Pro,
    }
}

/// What `bet` adds to the stake on `side` of the debate at `debate_key`.
pub open spec fn stake_of(bet: Bet, debate_key: Address, side: DebatePosition) -> int {
    if bet.debate == debate_key && bet.side == side {
        bet.amount as int
    } else {
        0
    }
}

/// What all of `bets` staked on `side` of the debate at `debate_key`.
pub open spec fn staked_on(bets: Seq<Bet>, debate_key: Address, side: DebatePosition) -> int
    decreases bets.len(),
{
    if bets.len() == 0 {
        0
    } else {
        staked_on(bets.drop_last(), debate_key, side) + stake_of(bets.last(), debate_key, side)
    }
}

/// What a claim of `bet` will take out of escrow once the debate at
/// `debate_key` is won by `winner`: its payout while it is an unclaimed bet
/// on the winning side of that debate, and nothing otherwise.
pub open spec fn owed(bet: Bet, debate_key: Address, winner: DebatePosition, fee_bps: int) -> int {
    if bet.debate == debate_key && bet.side == winner && !bet.settled {
        bet_payout(bet.amount as int, fee_bps)
    } else {
        0
    }
}

/// What the claims of all of `bets` will still take out of escrow.
pub open spec fn outstanding(
    bets: Seq<Bet>,
    debate_key: Address,
    winner: DebatePosition,
    fee_bps: int,
) -> int
    decreases bets.len(),
{
    if bets.len() == 0 {
        0
    } else {
        outstanding(bets.drop_last(), debate_key, winner, fee_bps) + owed(
            bets.last(),
            debate_key,
            winner,
            fee_bps,
        )
    }
}

/// No bet is owed less than nothing or more than twice its stake on the
/// winning side.
pub proof fn lemma_owed_bounds(bet: Bet, debate_key: Address, winner: DebatePosition, fee_bps: int)
    requires
        valid_fee(fee_bps),
    ensures
        0 <= owed(bet, debate_key, winner, fee_bps) <= 2 * stake_of(bet, debate_key, winner),
{
    lemma_bet_payout_bounds(bet.amount as int, fee_bps);
}

/// What is outstanding is at least what is owed to any one bet, and at
/// most twice the stake on the winning side.
pub proof fn lemma_outstanding_bounds(
    bets: Seq<Bet>,
    debate_key: Address,
    winner: DebatePosition,
    fee_bps: int,
)
    requires
        valid_fee(fee_bps),
    ensures
        0 <= outstanding(bets, debate_key, winner, fee_bps) <= 2 * staked_on(
            bets,
            debate_key,
            winner,
        ),
        forall|i: int|
            0 <= i < bets.len() ==> owed(#[trigger] bets[i], debate_key, winner, fee_bps)
                <= outstanding(bets, debate_key, winner, fee_bps),
    decreases bets.len(),
{
    if bets.len() > 0 {
        let front = bets.drop_last();
        lemma_outstanding_bounds(front, debate_key, winner, fee_bps);
        lemma_owed_bounds(bets.last(), debate_key, winner, fee_bps);
        assert forall|i: int| 0 <= i < bets.len() implies owed(
            #[trigger] bets[i],
            debate_key,
            winner,
            fee_bps,
        ) <= outstanding(bets, debate_key, winner, fee_bps) by {
            if i < front.len() {
                assert(front[i] == bets[i]);
            }
        }
    }
}

/// Replacing one bet changes what is outstanding by the difference of what
/// is owed to the two.
pub proof fn lemma_outstanding_after_update(
    bets: Seq<Bet>,
    at: int,
    bet: Bet,
    debate_key: Address,
    winner: DebatePosition,
    fee_bps: int,
)
    requires
        0 <= at < bets.len(),
    ensures
        outstanding(bets.update(at, bet), debate_key, winner, fee_bps) == outstanding(
            bets,
            debate_key,
            winner,
            fee_bps,
        ) - owed(bets[at], debate_key, winner, fee_bps) + owed(bet, debate_key, winner, fee_bps),
    decreases bets.len(),
{
    let after = bets.update(at, bet);
    if at == bets.len() - 1 {
        assert(after.drop_last() =~= bets.drop_last());
    } else {
        assert(after.drop_last() =~= bets.drop_last().update(at, bet));
        assert(after.last() == bets.last());
        lemma_outstanding_after_update(bets.drop_last(), at, bet, debate_key, winner, fee_bps);
    }
}

/// A new bet adds its amount to the stake on its side of its debate, and
/// nothing to any other.
pub proof fn lemma_staked_after_push(
    bets: Seq<Bet>,
    bet: Bet,
    debate_key: Address,
    side: DebatePosition,
)
    ensures
        staked_on(bets.push(bet), debate_key, side) == staked_on(bets, debate_key, side) + stake_of(
            bet,
            debate_key,
            side,
        ),
{
    assert(bets.push(bet).drop_last() =~= bets);
}

/// While escrow holds what is outstanding, no claim is refused for want of
/// funds, and after a claim escrow still holds what is then outstanding.
/// So if escrow covers the outstanding payouts once, it covers every claim
/// that follows.
pub proof fn lemma_covered_claim_is_paid(
    bets: Seq<Bet>,
    platform: Platform,
    debate_key: Address,
    debate: Debate,
    winner: DebatePosition,
    escrow: LedgerAccount,
    bettor: LedgerAccount,
    user: User,
)
    requires
        platform.well_formed(),
        debate.winner == Some(winner),
        holds(bets, debate_key, bettor.address),
        escrow.balance >= outstanding(bets, debate_key, winner, platform.platform_fee_bps as int),
    ensures
        claim_error(bets, platform, debate_key, debate, escrow, bettor, user) != Some(
            ErrorCode::InsufficientFunds,
        ),
        claim_error(bets, platform, debate_key, debate, escrow, bettor, user) is None ==> ({
            let at = position(bets, debate_key, bettor.address);
            let paid = claim_payout(platform, debate, bets[at]);
            debited(escrow, paid as u64).balance >= outstanding(
                bets.update(at, claimed(platform, debate, bets[at])),
                debate_key,
                winner,
                platform.platform_fee_bps as int,
            )
        }),
{
    let fee = platform.platform_fee_bps as int;
    let at = position(bets, debate_key, bettor.address);
    lemma_held_has_position(bets, debate_key, bettor.address);
    let bet = bets[at];
    lemma_outstanding_bounds(bets, debate_key, winner, fee);
    lemma_owed_bounds(bet, debate_key, winner, fee);
    lemma_outstanding_after_update(
        bets,
        at,
        claimed(platform, debate, bet),
        debate_key,
        winner,
        fee,
    );
    assert(owed(bet, debate_key, winner, fee) <= outstanding(bets, debate_key, winner, fee));
    if !bet.settled && bet_won(debate, bet) {
        assert(claim_payout(platform, debate, bet) == owed(bet, debate_key, winner, fee));
    }
}

/// After settlement escrow covers every claim if it holds all that was bet
/// on the debate and the winning side was backed with no more than the
/// losing side: the payouts of the winners are at most twice their stakes,
/// and the stakes of the losers make up the second half.
pub proof fn lemma_balanced_book_is_covered(
    bets: Seq<Bet>,
    debate_key: Address,
    winner: DebatePosition,
    fee_bps: int,
    escrow: LedgerAccount,
)
    requires
        valid_fee(fee_bps),
        staked_on(bets, debate_key, winner) <= staked_on(bets, debate_key, opposite(winner)),
        escrow.balance >= staked_on(bets, debate_key, winner) + staked_on(
            bets,
            debate_key,
            opposite(winner),
        ),
    ensures
        escrow.balance >= outstanding(bets, debate_key, winner, fee_bps),
{
    lemma_outstanding_bounds(bets, debate_key, winner, fee_bps);
}

} // verus!
