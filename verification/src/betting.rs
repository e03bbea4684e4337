//! Side bets on a debate: placing a bet while the debate is pending, and
//! claiming it once the debate is completed.
//!
//! A bettor has at most one bet on a debate. Bets are placed through the
//! book of bets, which refuses a second one.
//!
//! A winning bet is paid at fixed odds: twice its amount less the fee,
//! whatever was staked on the other side. Escrow is therefore only sure to
//! cover every claim when both sides were backed equally. A claim that
//! escrow cannot cover is refused; the balance of escrow never goes below
//! zero.

use vstd::prelude::*;
use crate::address::Address;
use crate::bet::Bet;
use crate::book::{
    holds, lemma_first_match_is_position, lemma_held_has_position, position, unique_keys, BetBook,
};
use crate::debate::{settled, started, Debate, DebatePosition, DebateStatus};
use crate::error::ErrorCode;
use crate::ledger::{credited, debited, transfer, transfer_error, LedgerAccount};
use crate::payout::{bet_payout, bet_payout_error, compute_bet_payout, lemma_bet_payout_bounds};
use crate::platform::Platform;
use crate::registry::User;

verus! {

/// Which error, if any, keeps a bet from being placed: the bettor must have
/// no bet on the debate among `bets`, the user record must be the bettor's,
/// the amount positive, the debate pending, the bettor must be another
/// account than escrow and hold the amount, and escrow and the user's total
/// must have room.
pub open spec fn place_bet_error(
    bets: Seq<Bet>,
    debate_key: Address,
    debate: Debate,
    bettor: LedgerAccount,
    escrow: LedgerAccount,
    user: User,
    amount: u64,
) -> Option<ErrorCode> {
    if holds(bets, debate_key, bettor.address) {
        Some(ErrorCode::BetAlreadyPlaced)
    } else if user.wallet != bettor.address {
        Some(ErrorCode::Unauthorized)
    } else if amount == 0 {
        Some(ErrorCode::InvalidBetAmount)
    } else if debate.status != DebateStatus::Pending {
        Some(ErrorCode::BettingClosed)
    } else if transfer_error(bettor, escrow, amount) is Some {
        transfer_error(bettor, escrow, amount)
    } else if user.total_wagered + amount > u64::MAX {
        Some(ErrorCode::ArithmeticOverflow)
    } else {
        None
    }
}

/// The record of a bet that has just been placed.
pub open spec fn new_bet(
    debate_key: Address,
    bettor: Address,
    side: DebatePosition,
    amount: u64,
    now: i64,
    bump: u8,
) -> Bet {
    Bet {
        debate: debate_key,
        bettor,
        side,
        amount,
        settled: false,
        payout: 0,
        created_at: now,
        bump,
    }
}

/// Places a bet of `amount` on `side` of the pending debate at
/// `debate_key`, at time `now`: moves the amount from `bettor` into
/// `escrow`, adds it to the user's wagered total, enters the bet in `book`
/// and returns it. A bettor who already has a bet on the debate in `book`
/// is refused. Either all of this happens, or nothing has changed: a
/// refused bet leaves the book, and so the bettor's first bet, as it was.
pub fn place_bet(
    book: &mut BetBook,
    debate_key: Address,
    debate: &Debate,
    bettor: &mut LedgerAccount,
    escrow: &mut LedgerAccount,
    user: &mut User,
    side: DebatePosition,
    amount: u64,
    now: i64,
    bump: u8,
) -> (r: Result<Bet, ErrorCode>)
    ensures
        match place_bet_error(
            old(book)@,
            debate_key,
            *debate,
            *old(bettor),
            *old(escrow),
            *old(user),
            amount,
        ) {
            Some(e) => {
                &&& r == Err::<Bet, ErrorCode>(e)
                &&& final(book)@ == old(book)@
                &&& *final(bettor) == *old(bettor)
                &&& *final(escrow) == *old(escrow)
                &&& *final(user) == *old(user)
            },
            None => {
                &&& r == Ok::<Bet, ErrorCode>(
                    new_bet(debate_key, old(bettor).address, side, amount, now, bump),
                )
                &&& final(book)@ == old(book)@.push(
                    new_bet(debate_key, old(bettor).address, side, amount, now, bump),
                )
                &&& *final(bettor) == debited(*old(bettor), amount)
                &&& *final(escrow) == credited(*old(escrow), amount)
                &&& *final(user) == (User {
                    total_wagered: (old(user).total_wagered + amount) as u64,
                    ..*old(user)
                })
                &&& final(bettor).balance + final(escrow).balance
                    == old(bettor).balance + old(escrow).balance
            },
        },
        r matches Ok(bet) ==> bet.well_formed(),
        unique_keys(final(book)@),
{
    if book.find(&debate_key, &bettor.address).is_some() {
        return Err(ErrorCode::BetAlreadyPlaced);
    }
    if !user.wallet.same(&bettor.address) {
        return Err(ErrorCode::Unauthorized);
    }
    if amount == 0 {
        return Err(ErrorCode::InvalidBetAmount);
    }
    if debate.status != DebateStatus::Pending {
        return Err(ErrorCode::BettingClosed);
    }
    if bettor.address.same(&escrow.address) {
        return Err(ErrorCode::RecordMismatch);
    }
    if bettor.balance < amount {
        return Err(ErrorCode::InsufficientFunds);
    }
    if escrow.balance > u64::MAX - amount {
        return Err(ErrorCode::ArithmeticOverflow);
    }
    if user.total_wagered > u64::MAX - amount {
        return Err(ErrorCode::ArithmeticOverflow);
    }
    match transfer(bettor, escrow, amount) {
        Ok(()) => {},
        Err(e) => {
            return Err(e);
        },
    }
    user.total_wagered = user.total_wagered + amount;
    let bet = Bet {
        debate: debate_key,
        bettor: bettor.address,
        side,
        amount,
        settled: false,
        payout: 0,
        created_at: now,
        bump,
    };
    book.enter(bet);
    Ok(bet)
}

/// Whether `bet` is on the side that `debate` declared the winner.
pub open spec fn bet_won(debate: Debate, bet: Bet) -> bool {
    debate.winner == Some(bet.side)
}

/// What a claim of `bet` pays once `debate` is completed: the fixed-odds
/// payout if the bet is on the winning side, nothing otherwise.
pub open spec fn claim_payout(platform: Platform, debate: Debate, bet: Bet) -> int {
    if bet_won(debate, bet) {
        bet_payout(bet.amount as int, platform.platform_fee_bps as int)
    } else {
        0
    }
}

/// Which error, if any, keeps `bettor` from claiming `bet`: the bet and the
/// user record must be the bettor's, the bet must be on this debate, the
/// debate completed with a winner, and the bet not claimed before. For a
/// bet on the winning side the payout must be computable, escrow must be
/// another account than the bettor and hold the payout, and the bettor's
/// balance and the user's total must have room. A bet on the losing side
/// can always be claimed, for nothing.
pub open spec fn claim_bet_error(
    platform: Platform,
    debate_key: Address,
    debate: Debate,
    bet: Bet,
    escrow: LedgerAccount,
    bettor: LedgerAccount,
    user: User,
) -> Option<ErrorCode> {
    if bet.bettor != bettor.address || user.wallet != bettor.address {
        Some(ErrorCode::Unauthorized)
    } else if bet.debate != debate_key {
        Some(ErrorCode::RecordMismatch)
    } else if debate.status != DebateStatus::Completed {
        Some(ErrorCode::DebateNotCompleted)
    } else if bet.settled {
        Some(ErrorCode::BetAlreadySettled)
    } else if debate.winner is None {
        Some(ErrorCode::NoWinner)
    } else if !bet_won(debate, bet) {
        None
    } else if bet_payout_error(bet.amount, platform.platform_fee_bps) is Some {
        bet_payout_error(bet.amount, platform.platform_fee_bps)
    } else if transfer_error(escrow, bettor, claim_payout(platform, debate, bet) as u64) is Some {
        transfer_error(escrow, bettor, claim_payout(platform, debate, bet) as u64)
    } else if user.total_won + claim_payout(platform, debate, bet) > u64::MAX {
        Some(ErrorCode::ArithmeticOverflow)
    } else {
        None
    }
}

/// `bet` after its claim: settled, and with its payout recorded if it is on
/// the winning side.
pub open spec fn claimed(platform: Platform, debate: Debate, bet: Bet) -> Bet {
    if bet_won(debate, bet) {
        Bet { settled: true, payout: claim_payout(platform, debate, bet) as u64, ..bet }
    } else {
        Bet { settled: true, ..bet }
    }
}

/// Claims `bet` for `bettor` after the debate is completed. The bet is
/// marked settled, so it cannot be claimed again. If it is on the winning
/// side, its payout moves from `escrow` to `bettor` and is added to the
/// user's total; if not, nothing moves. Either all of this happens, or
/// nothing has changed: a payout that escrow does not hold is refused.
pub fn claim_bet(
    platform: &Platform,
    debate_key: &Address,
    debate: &Debate,
    bet: &mut Bet,
    escrow: &mut LedgerAccount,
    bettor: &mut LedgerAccount,
    user: &mut User,
) -> (r: Result<(), ErrorCode>)
    ensures
        match claim_bet_error(
            *platform,
            *debate_key,
            *debate,
            *old(bet),
            *old(escrow),
            *old(bettor),
            *old(user),
        ) {
            Some(e) => {
                &&& r == Err::<(), ErrorCode>(e)
                &&& *final(bet) == *old(bet)
                &&& *final(escrow) == *old(escrow)
                &&& *final(bettor) == *old(bettor)
                &&& *final(user) == *old(user)
            },
            None => {
                &&& r == Ok::<(), ErrorCode>(())
                &&& 0 <= claim_payout(*platform, *debate, *old(bet)) <= old(escrow).balance
                &&& *final(bet) == claimed(*platform, *debate, *old(bet))
                &&& *final(escrow) == debited(
                    *old(escrow),
                    claim_payout(*platform, *debate, *old(bet)) as u64,
                )
                &&& *final(bettor) == credited(
                    *old(bettor),
                    claim_payout(*platform, *debate, *old(bet)) as u64,
                )
                &&& *final(user) == (User {
                    total_won: (old(user).total_won + claim_payout(
                        *platform,
                        *debate,
                        *old(bet),
                    )) as u64,
                    ..*old(user)
                })
                &&& final(bettor).balance + final(escrow).balance
                    == old(bettor).balance + old(escrow).balance
            },
        },
        old(bet).well_formed() ==> final(bet).well_formed(),
{
    if !bet.bettor.same(&bettor.address) || !user.wallet.same(&bettor.address) {
        return Err(ErrorCode::Unauthorized);
    }
    if !bet.debate.same(debate_key) {
        return Err(ErrorCode::RecordMismatch);
    }
    if debate.status != DebateStatus::Completed {
        return Err(ErrorCode::DebateNotCompleted);
    }
    if bet.settled {
        return Err(ErrorCode::BetAlreadySettled);
    }
    let winner = match debate.winner {
        Some(w) => w,
        None => {
            return Err(ErrorCode::NoWinner);
        },
    };
    if bet.side == winner {
        let payout = match compute_bet_payout(bet.amount, platform.platform_fee_bps) {
            Ok(p) => p,
            Err(e) => {
                return Err(e);
            },
        };
        if escrow.address.same(&bettor.address) {
            return Err(ErrorCode::RecordMismatch);
        }
        if escrow.balance < payout {
            return Err(ErrorCode::InsufficientFunds);
        }
        if bettor.balance > u64::MAX - payout || user.total_won > u64::MAX - payout {
            return Err(ErrorCode::ArithmeticOverflow);
        }
        match transfer(escrow, bettor, payout) {
            Ok(()) => {},
            Err(e) => {
                return Err(e);
            },
        }
        user.total_won = user.total_won + payout;
        bet.payout = payout;
    }
    bet.settled = true;
    Ok(())
}

/// Which error, if any, keeps a bettor from claiming through the book: the
/// book must hold the bettor's bet on the debate; the rest is as for
/// `claim_bet` on that bet.
pub open spec fn claim_error(
    bets: Seq<Bet>,
    platform: Platform,
    debate_key: Address,
    debate: Debate,
    escrow: LedgerAccount,
    bettor: LedgerAccount,
    user: User,
) -> Option<ErrorCode> {
    if !holds(bets, debate_key, bettor.address) {
        Some(ErrorCode::BetNotFound)
    } else {
        claim_bet_error(
            platform,
            debate_key,
            debate,
            bets[position(bets, debate_key, bettor.address)],
            escrow,
            bettor,
            user,
        )
    }
}

impl BetBook {
    /// Claims the bettor's bet on the debate at `debate_key` as `claim_bet`
    /// does, and records the claim in the book.
    pub fn claim(
        &mut self,
        platform: &Platform,
        debate_key: &Address,
        debate: &Debate,
        escrow: &mut LedgerAccount,
        bettor: &mut LedgerAccount,
        user: &mut User,
    ) -> (r: Result<(), ErrorCode>)
        ensures
            match claim_error(
                old(self)@,
                *platform,
                *debate_key,
                *debate,
                *old(escrow),
                *old(bettor),
                *old(user),
            ) {
                Some(e) => {
                    &&& r == Err::<(), ErrorCode>(e)
                    &&& final(self)@ == old(self)@
                    &&& *final(escrow) == *old(escrow)
                    &&& *final(bettor) == *old(bettor)
                    &&& *final(user) == *old(user)
                },
                None => {
                    let at = position(old(self)@, *debate_key, old(bettor).address);
                    let bet = old(self)@[at];
                    &&& r == Ok::<(), ErrorCode>(())
                    &&& final(self)@ == old(self)@.update(at, claimed(*platform, *debate, bet))
                    &&& *final(escrow) == debited(
                        *old(escrow),
                        claim_payout(*platform, *debate, bet) as u64,
                    )
                    &&& *final(bettor) == credited(
                        *old(bettor),
                        claim_payout(*platform, *debate, bet) as u64,
                    )
                    &&& *final(user) == (User {
                        total_won: (old(user).total_won + claim_payout(*platform, *debate, bet))
                            as u64,
                        ..*old(user)
                    })
                },
            },
            unique_keys(final(self)@),
    {
        let at = match self.find(debate_key, &bettor.address) {
            Some(at) => at,
            None => {
                return Err(ErrorCode::BetNotFound);
            },
        };
        let mut bet = match self.get(at) {
            Some(bet) => bet,
            None => {
                return Err(ErrorCode::BetNotFound);
            },
        };
        match claim_bet(platform, debate_key, debate, &mut bet, escrow, bettor, user) {
            Ok(()) => {},
            Err(e) => {
                return Err(e);
            },
        }
        self.replace(at, bet);
        Ok(())
    }
}

/// A bettor cannot have two bets on one debate: once the book holds a
/// bettor's bet on a debate, every further bet of that bettor on that
/// debate is refused, whatever its side and amount, whatever the status of
/// the debate and whatever the accounts hold.
pub proof fn lemma_second_bet_refused(
    bets: Seq<Bet>,
    first: Bet,
    debate: Debate,
    bettor: LedgerAccount,
    escrow: LedgerAccount,
    user: User,
    amount: u64,
)
    requires
        bettor.address == first.bettor,
    ensures
        holds(bets.push(first), first.debate, first.bettor),
        place_bet_error(bets.push(first), first.debate, debate, bettor, escrow, user, amount)
            == Some(ErrorCode::BetAlreadyPlaced),
{
    let after = bets.push(first);
    assert(after[bets.len() as int].is_keyed(first.debate, first.bettor));
}

/// Betting closes the moment a debate leaves the pending status: on a
/// debate that is not pending every bet is refused, whoever places it and
/// whatever the amount. A bettor without a bet on the debate who presents
/// the right user record and a positive amount is told that betting is
/// closed.
pub proof fn lemma_betting_closed_unless_pending(
    bets: Seq<Bet>,
    debate_key: Address,
    debate: Debate,
    bettor: LedgerAccount,
    escrow: LedgerAccount,
    user: User,
    amount: u64,
)
    requires
        debate.status != DebateStatus::Pending,
    ensures
        place_bet_error(bets, debate_key, debate, bettor, escrow, user, amount) is Some,
        !holds(bets, debate_key, bettor.address) && user.wallet == bettor.address && amount > 0
            ==> place_bet_error(bets, debate_key, debate, bettor, escrow, user, amount) == Some(
            ErrorCode::BettingClosed,
        ),
{
}

/// No bet can be placed on a debate that was started or settled.
pub proof fn lemma_betting_closed_after_start(
    bets: Seq<Bet>,
    debate_key: Address,
    debate: Debate,
    now: i64,
    winner: DebatePosition,
    bettor: LedgerAccount,
    escrow: LedgerAccount,
    user: User,
    amount: u64,
)
    ensures
        place_bet_error(bets, debate_key, started(debate, now), bettor, escrow, user, amount)
            is Some,
        place_bet_error(
            bets,
            debate_key,
            settled(debate, winner, now),
            bettor,
            escrow,
            user,
            amount,
        ) is Some,
{
}

/// A bet is claimed at most once: after a claim the bet is settled, and
/// every further claim of it is refused, whatever is presented with it. A
/// refused claim changes nothing, so the recorded payout stays as the first
/// claim left it and nothing is paid twice. A bettor who presents the bet
/// with the right user record against its completed debate is told that
/// the bet is already settled.
pub proof fn lemma_claim_only_once(
    first_platform: Platform,
    first_debate: Debate,
    bet: Bet,
    platform: Platform,
    debate_key: Address,
    debate: Debate,
    escrow: LedgerAccount,
    bettor: LedgerAccount,
    user: User,
)
    ensures
        claimed(first_platform, first_debate, bet).settled,
        claim_bet_error(
            platform,
            debate_key,
            debate,
            claimed(first_platform, first_debate, bet),
            escrow,
            bettor,
            user,
        ) is Some,
        bet.is_keyed(debate_key, bettor.address) && user.wallet == bettor.address && debate.status
            == DebateStatus::Completed ==> claim_bet_error(
            platform,
            debate_key,
            debate,
            claimed(first_platform, first_debate, bet),
            escrow,
            bettor,
            user,
        ) == Some(ErrorCode::BetAlreadySettled),
{
}

/// A claim through the book is made at most once for each bet: after a
/// claim, every further claim of the same bettor on the same debate is
/// refused, whatever is presented with it.
pub proof fn lemma_book_claim_only_once(
    bets: Seq<Bet>,
    first_platform: Platform,
    first_debate: Debate,
    platform: Platform,
    debate_key: Address,
    debate: Debate,
    escrow: LedgerAccount,
    bettor: LedgerAccount,
    user: User,
)
    requires
        holds(bets, debate_key, bettor.address),
    ensures
        claim_error(
            bets.update(
                position(bets, debate_key, bettor.address),
                claimed(
                    first_platform,
                    first_debate,
                    bets[position(bets, debate_key, bettor.address)],
                ),
            ),
            platform,
            debate_key,
            debate,
            escrow,
            bettor,
            user,
        ) is Some,
{
    lemma_held_has_position(bets, debate_key, bettor.address);
    let at = position(bets, debate_key, bettor.address);
    let after = bets.update(at, claimed(first_platform, first_debate, bets[at]));
    assert(after[at].is_keyed(debate_key, bettor.address));
    assert forall|j: int| 0 <= j < at implies !(#[trigger] after[j]).is_keyed(
        debate_key,
        bettor.address,
    ) by {
        assert(after[j] == bets[j]);
    }
    lemma_first_match_is_position(after, at, debate_key, bettor.address);
}

/// A claim never takes more out of escrow than escrow holds: the balance
/// of escrow after a claim is the balance before less the payout, and not
/// below zero. A bet on the losing side takes nothing.
pub proof fn lemma_claim_within_escrow(
    platform: Platform,
    debate_key: Address,
    debate: Debate,
    bet: Bet,
    escrow: LedgerAccount,
    bettor: LedgerAccount,
    user: User,
)
    requires
        claim_bet_error(platform, debate_key, debate, bet, escrow, bettor, user) is None,
    ensures
        0 <= claim_payout(platform, debate, bet) <= escrow.balance,
        debited(escrow, claim_payout(platform, debate, bet) as u64).balance == escrow.balance
            - claim_payout(platform, debate, bet),
        !bet_won(debate, bet) ==> claim_payout(platform, debate, bet) == 0,
        claim_payout(platform, debate, bet) <= 2 * bet.amount,
{
    if bet_won(debate, bet) {
        lemma_bet_payout_bounds(bet.amount as int, platform.platform_fee_bps as int);
    }
}

} // verus!
