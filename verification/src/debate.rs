//! The lifecycle of a debate: creation with both stakes in escrow, start,
//! round results, and the settlement that pays the winner and the treasury.

use vstd::prelude::*;
use crate::address::Address;
use crate::error::ErrorCode;
use crate::ledger::{
    agree, coherent, credited, debited, do_agree, pairwise_distinct, LedgerAccount,
};
use crate::payout::{
    compute_settlement, lemma_fee_bounds, platform_fee, settlement_error, stake_pool,
    winner_payout,
};
use crate::platform::{require_authority, Platform};
use crate::text::{byte_len, text_len};
use crate::topics::MAX_TOPIC_LEN;

verus! {

/// The number of the first round of a debate.
pub const FIRST_ROUND: u8 = 1;

/// The number of the last round of a debate.
pub const LAST_ROUND: u8 = 3;

/// Where a debate stands. A debate moves from `Pending` to `InProgress` to
/// `Completed`; no operation produces `Cancelled`.
#[derive(Clone, Copy, Debug, PartialEq, Eq, Structural)]
pub enum DebateStatus {
    Pending,
    InProgress,
    Completed,
    Cancelled,
}

/// The side of a debate that a bot argues, a bettor backs, or that wins.
#[derive(Clone, Copy, Debug, PartialEq, Eq, Structural)]
pub enum DebatePosition {
    Pro,
    Con,
}

/// One staked debate between two bots.
#[derive(Clone, Debug, PartialEq, Eq)]
pub struct Debate {
    pub topic: String,
    pub pro_bot: Address,
    pub con_bot: Address,
    pub status: DebateStatus,
    /// The stake of each side.
    pub stake_amount: u64,
    /// The votes of all reported rounds. Advisory.
    pub total_pro_votes: u64,
    pub total_con_votes: u64,
    /// The rounds in which a side had strictly more votes. Advisory.
    pub pro_rounds_won: u8,
    pub con_rounds_won: u8,
    /// The declared winner; present exactly when the debate is completed.
    pub winner: Option<DebatePosition>,
    pub created_at: i64,
    pub started_at: Option<i64>,
    pub completed_at: Option<i64>,
    pub bump: u8,
}

impl Debate {
    /// What holds of a debate at every step: the stake is positive, the
    /// topic fits its record, a winner and a completion time are present
    /// exactly when the debate is completed, and a start time exactly when
    /// it is in progress or completed.
    pub open spec fn well_formed(&self) -> bool {
        &&& self.stake_amount > 0
        &&& byte_len(self.topic@) <= MAX_TOPIC_LEN
        &&& (self.winner is Some <==> self.status == DebateStatus::Completed)
        &&& (self.completed_at is Some <==> self.status == DebateStatus::Completed)
        &&& (self.started_at is Some <==> (self.status == DebateStatus::InProgress || self.status
            == DebateStatus::Completed))
    }

    /// Tests `well_formed`.
    pub fn is_well_formed(&self) -> (b: bool)
        ensures
            b == self.well_formed(),
    {
        let completed = self.status == DebateStatus::Completed;
        let started = self.status == DebateStatus::InProgress || completed;
        self.stake_amount > 0 && text_len(&self.topic) <= MAX_TOPIC_LEN && self.winner.is_some()
            == completed && self.completed_at.is_some() == completed && self.started_at.is_some()
            == started
    }
}

/// What leaves the account of each owner when a debate is created: one
/// stake, or both stakes where one account owns both sides.
pub open spec fn stakes_due(
    pro_owner: LedgerAccount,
    con_owner: LedgerAccount,
    stake_amount: u64,
) -> int {
    if pro_owner.address == con_owner.address {
        stake_pool(stake_amount as int)
    } else {
        stake_amount as int
    }
}

/// Which error, if any, keeps a debate from being created: the stake must
/// be positive, the topic must fit, escrow must be another account than
/// either owner, the two owners must agree where they are one account, each
/// owner must hold what is due from it, and escrow and the debate counter
/// must have room.
pub open spec fn create_debate_error(
    platform: Platform,
    pro_owner: LedgerAccount,
    con_owner: LedgerAccount,
    escrow: LedgerAccount,
    topic_text: Seq<char>,
    stake_amount: u64,
) -> Option<ErrorCode> {
    if stake_amount == 0 {
        Some(ErrorCode::InvalidStake)
    } else if byte_len(topic_text) > MAX_TOPIC_LEN {
        Some(ErrorCode::InvalidTopicLength)
    } else if pro_owner.address == escrow.address || con_owner.address == escrow.address || !agree(
        pro_owner,
        con_owner,
    ) {
        Some(ErrorCode::RecordMismatch)
    } else if pro_owner.balance < stakes_due(pro_owner, con_owner, stake_amount)
        || con_owner.balance < stakes_due(pro_owner, con_owner, stake_amount) {
        Some(ErrorCode::InsufficientFunds)
    } else if escrow.balance + stake_pool(stake_amount as int) > u64::MAX {
        Some(ErrorCode::ArithmeticOverflow)
    } else if platform.total_debates == u64::MAX {
        Some(ErrorCode::ArithmeticOverflow)
    } else {
        None
    }
}

/// The record of a debate that has just been created.
pub open spec fn new_debate(
    pro_bot: Address,
    con_bot: Address,
    topic_text: String,
    stake_amount: u64,
    now: i64,
    bump: u8,
) -> Debate {
    Debate {
        topic: topic_text,
        pro_bot,
        con_bot,
        status: DebateStatus::Pending,
        stake_amount,
        total_pro_votes: 0,
        total_con_votes: 0,
        pro_rounds_won: 0,
        con_rounds_won: 0,
        winner: None,
        created_at: now,
        started_at: None,
        completed_at: None,
        bump,
    }
}

/// Creates a pending debate between `pro_bot` and `con_bot` at time `now`
/// and moves one stake from each owner into `escrow`. One account may own
/// both sides: it is then presented as both owners and pays both stakes.
/// Either both stakes reach escrow and the debate is counted, or nothing
/// has changed.
pub fn create_debate(
    platform: &mut Platform,
    pro_bot: Address,
    con_bot: Address,
    pro_owner: &mut LedgerAccount,
    con_owner: &mut LedgerAccount,
    escrow: &mut LedgerAccount,
    topic_text: String,
    stake_amount: u64,
    now: i64,
    bump: u8,
) -> (r: Result<Debate, ErrorCode>)
    ensures
        match create_debate_error(
            *old(platform),
            *old(pro_owner),
            *old(con_owner),
            *old(escrow),
            topic_text@,
            stake_amount,
        ) {
            Some(e) => {
                &&& r == Err::<Debate, ErrorCode>(e)
                &&& *final(platform) == *old(platform)
                &&& *final(pro_owner) == *old(pro_owner)
                &&& *final(con_owner) == *old(con_owner)
                &&& *final(escrow) == *old(escrow)
            },
            None => {
                &&& r == Ok::<Debate, ErrorCode>(
                    new_debate(pro_bot, con_bot, topic_text, stake_amount, now, bump),
                )
                &&& *final(platform) == (Platform {
                    total_debates: (old(platform).total_debates + 1) as u64,
                    ..*old(platform)
                })
                &&& *final(pro_owner) == debited(
                    *old(pro_owner),
                    stakes_due(*old(pro_owner), *old(con_owner), stake_amount) as u64,
                )
                &&& *final(con_owner) == debited(
                    *old(con_owner),
                    stakes_due(*old(pro_owner), *old(con_owner), stake_amount) as u64,
                )
                &&& *final(escrow) == credited(
                    *old(escrow),
                    stake_pool(stake_amount as int) as u64,
                )
                &&& agree(*final(pro_owner), *final(con_owner))
                &&& old(pro_owner).address != old(con_owner).address ==> final(pro_owner).balance
                    + final(con_owner).balance + final(escrow).balance == old(pro_owner).balance
                    + old(con_owner).balance + old(escrow).balance
                &&& old(pro_owner).address == old(con_owner).address ==> final(pro_owner).balance
                    + final(escrow).balance == old(pro_owner).balance + old(escrow).balance
            },
        },
        r matches Ok(d) ==> d.well_formed(),
        old(platform).well_formed() ==> final(platform).well_formed(),
{
    if stake_amount == 0 {
        return Err(ErrorCode::InvalidStake);
    }
    if text_len(&topic_text) > MAX_TOPIC_LEN {
        return Err(ErrorCode::InvalidTopicLength);
    }
    let one_owner = pro_owner.address.same(&con_owner.address);
    if pro_owner.address.same(&escrow.address) || con_owner.address.same(&escrow.address) {
        return Err(ErrorCode::RecordMismatch);
    }
    if !do_agree(pro_owner, con_owner) {
        return Err(ErrorCode::RecordMismatch);
    }
    let due: u64 = if one_owner {
        match stake_amount.checked_mul(2) {
            Some(both) => both,
            None => {
                return Err(ErrorCode::InsufficientFunds);
            },
        }
    } else {
        stake_amount
    };
    if pro_owner.balance < due || con_owner.balance < due {
        return Err(ErrorCode::InsufficientFunds);
    }
    if stake_amount > (u64::MAX - escrow.balance) / 2 {
        return Err(ErrorCode::ArithmeticOverflow);
    }
    if platform.total_debates == u64::MAX {
        return Err(ErrorCode::ArithmeticOverflow);
    }
    pro_owner.balance = pro_owner.balance - due;
    con_owner.balance = con_owner.balance - due;
    escrow.balance = escrow.balance + stake_amount + stake_amount;
    platform.total_debates = platform.total_debates + 1;
    Ok(
        Debate {
            topic: topic_text,
            pro_bot,
            con_bot,
            status: DebateStatus::Pending,
            stake_amount,
            total_pro_votes: 0,
            total_con_votes: 0,
            pro_rounds_won: 0,
            con_rounds_won: 0,
            winner: None,
            created_at: now,
            started_at: None,
            completed_at: None,
            bump,
        },
    )
}

/// Which error, if any, keeps `caller` from starting `debate`.
pub open spec fn start_debate_error(platform: Platform, caller: Address, debate: Debate) -> Option<
    ErrorCode,
> {
    if !platform.authorizes(caller) {
        Some(ErrorCode::Unauthorized)
    } else if debate.status != DebateStatus::Pending {
        Some(ErrorCode::InvalidDebateStatus)
    } else {
        None
    }
}

/// `debate` after it was started at time `now`.
pub open spec fn started(debate: Debate, now: i64) -> Debate {
    Debate { status: DebateStatus::InProgress, started_at: Some(now), ..debate }
}

/// Starts a pending debate at time `now`, which closes betting on it. Only
/// the settlement authority may do this.
pub fn start_debate(platform: &Platform, caller: &Address, debate: &mut Debate, now: i64) -> (r:
    Result<(), ErrorCode>)
    ensures
        match start_debate_error(*platform, *caller, *old(debate)) {
            Some(e) => r == Err::<(), ErrorCode>(e) && *final(debate) == *old(debate),
            None => r == Ok::<(), ErrorCode>(()) && *final(debate) == started(*old(debate), now),
        },
        old(debate).well_formed() ==> final(debate).well_formed(),
{
    match require_authority(platform, caller) {
        Ok(()) => {},
        Err(e) => {
            return Err(e);
        },
    }
    if debate.status != DebateStatus::Pending {
        return Err(ErrorCode::InvalidDebateStatus);
    }
    debate.status = DebateStatus::InProgress;
    debate.started_at = Some(now);
    Ok(())
}

/// Whether a round with these votes goes to the pro side.
pub open spec fn pro_takes_round(pro_votes: u32, con_votes: u32) -> bool {
    pro_votes > con_votes
}

/// Whether a round with these votes goes to the con side.
pub open spec fn con_takes_round(pro_votes: u32, con_votes: u32) -> bool {
    con_votes > pro_votes
}

/// Which error, if any, keeps `caller` from reporting a round of `debate`.
/// The same round may be reported more than once.
pub open spec fn submit_round_result_error(
    platform: Platform,
    caller: Address,
    debate: Debate,
    round: u8,
    pro_votes: u32,
    con_votes: u32,
) -> Option<ErrorCode> {
    if !platform.authorizes(caller) {
        Some(ErrorCode::Unauthorized)
    } else if round < FIRST_ROUND || round > LAST_ROUND {
        Some(ErrorCode::InvalidRound)
    } else if debate.status != DebateStatus::InProgress {
        Some(ErrorCode::InvalidDebateStatus)
    } else if debate.total_pro_votes + pro_votes > u64::MAX || debate.total_con_votes + con_votes
        > u64::MAX {
        Some(ErrorCode::ArithmeticOverflow)
    } else if pro_takes_round(pro_votes, con_votes) && debate.pro_rounds_won == u8::MAX {
        Some(ErrorCode::ArithmeticOverflow)
    } else if con_takes_round(pro_votes, con_votes) && debate.con_rounds_won == u8::MAX {
        Some(ErrorCode::ArithmeticOverflow)
    } else {
        None
    }
}

/// `debate` after a round with these votes was added to its tallies: both
/// totals grow by the round's votes, and the side with strictly more votes
/// has one more round; a tie gives the round to neither.
pub open spec fn scored(debate: Debate, pro_votes: u32, con_votes: u32) -> Debate {
    Debate {
        total_pro_votes: (debate.total_pro_votes + pro_votes) as u64,
        total_con_votes: (debate.total_con_votes + con_votes) as u64,
        pro_rounds_won: if pro_takes_round(pro_votes, con_votes) {
            (debate.pro_rounds_won + 1) as u8
        } else {
            debate.pro_rounds_won
        },
        con_rounds_won: if con_takes_round(pro_votes, con_votes) {
            (debate.con_rounds_won + 1) as u8
        } else {
            debate.con_rounds_won
        },
        ..debate
    }
}

/// Adds the result of one round to the tallies of a debate in progress.
/// The tallies are a record only; they do not decide the winner. Only the
/// settlement authority may do this.
pub fn submit_round_result(
    platform: &Platform,
    caller: &Address,
    debate: &mut Debate,
    round: u8,
    pro_votes: u32,
    con_votes: u32,
) -> (r: Result<(), ErrorCode>)
    ensures
        match submit_round_result_error(
            *platform,
            *caller,
            *old(debate),
            round,
            pro_votes,
            con_votes,
        ) {
            Some(e) => r == Err::<(), ErrorCode>(e) && *final(debate) == *old(debate),
            None => r == Ok::<(), ErrorCode>(()) && *final(debate) == scored(
                *old(debate),
                pro_votes,
                con_votes,
            ),
        },
        old(debate).well_formed() ==> final(debate).well_formed(),
{
    match require_authority(platform, caller) {
        Ok(()) => {},
        Err(e) => {
            return Err(e);
        },
    }
    if round < FIRST_ROUND || round > LAST_ROUND {
        return Err(ErrorCode::InvalidRound);
    }
    if debate.status != DebateStatus::InProgress {
        return Err(ErrorCode::InvalidDebateStatus);
    }
    let pro_total: u64 = match debate.total_pro_votes.checked_add(pro_votes as u64) {
        Some(t) => t,
        None => {
            return Err(ErrorCode::ArithmeticOverflow);
        },
    };
    let con_total: u64 = match debate.total_con_votes.checked_add(con_votes as u64) {
        Some(t) => t,
        None => {
            return Err(ErrorCode::ArithmeticOverflow);
        },
    };
    if pro_votes > con_votes {
        if debate.pro_rounds_won == u8::MAX {
            return Err(ErrorCode::ArithmeticOverflow);
        }
        debate.pro_rounds_won = debate.pro_rounds_won + 1;
    } else if con_votes > pro_votes {
        if debate.con_rounds_won == u8::MAX {
            return Err(ErrorCode::ArithmeticOverflow);
        }
        debate.con_rounds_won = debate.con_rounds_won + 1;
    }
    debate.total_pro_votes = pro_total;
    debate.total_con_votes = con_total;
    Ok(())
}

/// The balance of `account` after a settlement that takes `pool` from the
/// account at `escrow` and gives `payout` to the account at `payee` and
/// `fee` to the account at `treasury`. One account may stand in several of
/// these roles, and then takes and receives in each.
pub open spec fn settled_balance(
    account: LedgerAccount,
    escrow: Address,
    payee: Address,
    treasury: Address,
    pool: int,
    payout: int,
    fee: int,
) -> int {
    account.balance - (if account.address == escrow {
        pool
    } else {
        0
    }) + (if account.address == payee {
        payout
    } else {
        0
    }) + (if account.address == treasury {
        fee
    } else {
        0
    })
}

/// `account` after the settlement of a debate with the given stake at the
/// given fee.
pub open spec fn after_settlement(
    account: LedgerAccount,
    escrow: LedgerAccount,
    winner_account: LedgerAccount,
    treasury: LedgerAccount,
    stake_amount: u64,
    fee_bps: u16,
) -> LedgerAccount {
    LedgerAccount {
        address: account.address,
        balance: settled_balance(
            account,
            escrow.address,
            winner_account.address,
            treasury.address,
            stake_pool(stake_amount as int),
            winner_payout(stake_amount as int, fee_bps as int),
            platform_fee(stake_amount as int, fee_bps as int),
        ) as u64,
    }
}

/// Which error, if any, keeps `caller` from settling `debate` out of
/// `escrow`: the caller must be the authority, the debate in progress,
/// `treasury` the platform's treasury, the three accounts must agree where
/// two of them are one account, the pool and the fee must be computable,
/// escrow must hold the whole pool, and both payees must have room.
pub open spec fn settle_debate_error(
    platform: Platform,
    caller: Address,
    debate: Debate,
    escrow: LedgerAccount,
    winner_account: LedgerAccount,
    treasury: LedgerAccount,
) -> Option<ErrorCode> {
    if !platform.authorizes(caller) {
        Some(ErrorCode::Unauthorized)
    } else if debate.status != DebateStatus::InProgress {
        Some(ErrorCode::InvalidDebateStatus)
    } else if treasury.address != platform.treasury || !coherent(escrow, winner_account, treasury) {
        Some(ErrorCode::RecordMismatch)
    } else if settlement_error(debate.stake_amount, platform.platform_fee_bps) is Some {
        settlement_error(debate.stake_amount, platform.platform_fee_bps)
    } else if escrow.balance < stake_pool(debate.stake_amount as int) {
        Some(ErrorCode::InsufficientFunds)
    } else if settled_balance(
        winner_account,
        escrow.address,
        winner_account.address,
        treasury.address,
        stake_pool(debate.stake_amount as int),
        winner_payout(debate.stake_amount as int, platform.platform_fee_bps as int),
        platform_fee(debate.stake_amount as int, platform.platform_fee_bps as int),
    ) > u64::MAX || settled_balance(
        treasury,
        escrow.address,
        winner_account.address,
        treasury.address,
        stake_pool(debate.stake_amount as int),
        winner_payout(debate.stake_amount as int, platform.platform_fee_bps as int),
        platform_fee(debate.stake_amount as int, platform.platform_fee_bps as int),
    ) > u64::MAX {
        Some(ErrorCode::ArithmeticOverflow)
    } else {
        None
    }
}

/// `debate` after it was settled for `winner` at time `now`.
pub open spec fn settled(debate: Debate, winner: DebatePosition, now: i64) -> Debate {
    Debate {
        status: DebateStatus::Completed,
        winner: Some(winner),
        completed_at: Some(now),
        ..debate
    }
}

/// Completes a debate in progress at time `now`: declares `winner`, pays
/// the pool less the fee from `escrow` to `winner_account`, and the fee to
/// `treasury`. The winner is the caller's choice; the round tallies do not
/// bind it. So is the payee: it may be any account, the treasury and escrow
/// included. Either all of this happens, or nothing has changed. Only the
/// settlement authority may do this, and a completed debate cannot be
/// settled again.
pub fn settle_debate(
    platform: &Platform,
    caller: &Address,
    debate: &mut Debate,
    escrow: &mut LedgerAccount,
    winner_account: &mut LedgerAccount,
    treasury: &mut LedgerAccount,
    winner: DebatePosition,
    now: i64,
) -> (r: Result<(), ErrorCode>)
    ensures
        match settle_debate_error(
            *platform,
            *caller,
            *old(debate),
            *old(escrow),
            *old(winner_account),
            *old(treasury),
        ) {
            Some(e) => {
                &&& r == Err::<(), ErrorCode>(e)
                &&& *final(debate) == *old(debate)
                &&& *final(escrow) == *old(escrow)
                &&& *final(winner_account) == *old(winner_account)
                &&& *final(treasury) == *old(treasury)
            },
            None => {
                &&& r == Ok::<(), ErrorCode>(())
                &&& *final(debate) == settled(*old(debate), winner, now)
                &&& *final(escrow) == after_settlement(
                    *old(escrow),
                    *old(escrow),
                    *old(winner_account),
                    *old(treasury),
                    old(debate).stake_amount,
                    platform.platform_fee_bps,
                )
                &&& *final(winner_account) == after_settlement(
                    *old(winner_account),
                    *old(escrow),
                    *old(winner_account),
                    *old(treasury),
                    old(debate).stake_amount,
                    platform.platform_fee_bps,
                )
                &&& *final(treasury) == after_settlement(
                    *old(treasury),
                    *old(escrow),
                    *old(winner_account),
                    *old(treasury),
                    old(debate).stake_amount,
                    platform.platform_fee_bps,
                )
                &&& coherent(*final(escrow), *final(winner_account), *final(treasury))
                &&& pairwise_distinct(*old(escrow), *old(winner_account), *old(treasury)) ==> {
                    &&& *final(escrow) == debited(
                        *old(escrow),
                        stake_pool(old(debate).stake_amount as int) as u64,
                    )
                    &&& *final(winner_account) == credited(
                        *old(winner_account),
                        winner_payout(
                            old(debate).stake_amount as int,
                            platform.platform_fee_bps as int,
                        ) as u64,
                    )
                    &&& *final(treasury) == credited(
                        *old(treasury),
                        platform_fee(
                            old(debate).stake_amount as int,
                            platform.platform_fee_bps as int,
                        ) as u64,
                    )
                    &&& final(escrow).balance + final(winner_account).balance
                        + final(treasury).balance
                        == old(escrow).balance + old(winner_account).balance
                        + old(treasury).balance
                }
            },
        },
        old(debate).well_formed() ==> final(debate).well_formed(),
{
    match require_authority(platform, caller) {
        Ok(()) => {},
        Err(e) => {
            return Err(e);
        },
    }
    if debate.status != DebateStatus::InProgress {
        return Err(ErrorCode::InvalidDebateStatus);
    }
    if !treasury.address.same(&platform.treasury) || !do_agree(escrow, winner_account) || !do_agree(
        escrow,
        treasury,
    ) || !do_agree(winner_account, treasury) {
        return Err(ErrorCode::RecordMismatch);
    }
    let amounts = match compute_settlement(debate.stake_amount, platform.platform_fee_bps) {
        Ok(s) => s,
        Err(e) => {
            return Err(e);
        },
    };
    if escrow.balance < amounts.pool {
        return Err(ErrorCode::InsufficientFunds);
    }
    let payee_is_escrow = winner_account.address.same(&escrow.address);
    let treasury_is_escrow = treasury.address.same(&escrow.address);
    let payee_is_treasury = winner_account.address.same(&treasury.address);
    let mut escrow_after: u64 = escrow.balance - amounts.pool;
    if payee_is_escrow {
        escrow_after = escrow_after + amounts.payout;
    }
    if treasury_is_escrow {
        escrow_after = escrow_after + amounts.fee;
    }
    let payee_after: u64 = if payee_is_escrow {
        escrow_after
    } else {
        let gain: u64 = if payee_is_treasury {
            amounts.pool
        } else {
            amounts.payout
        };
        match winner_account.balance.checked_add(gain) {
            Some(b) => b,
            None => {
                return Err(ErrorCode::ArithmeticOverflow);
            },
        }
    };
    let treasury_after: u64 = if treasury_is_escrow {
        escrow_after
    } else if payee_is_treasury {
        payee_after
    } else {
        match treasury.balance.checked_add(amounts.fee) {
            Some(b) => b,
            None => {
                return Err(ErrorCode::ArithmeticOverflow);
            },
        }
    };
    escrow.balance = escrow_after;
    winner_account.balance = payee_after;
    treasury.balance = treasury_after;
    debate.status = DebateStatus::Completed;
    debate.winner = Some(winner);
    debate.completed_at = Some(now);
    Ok(())
}

/// Only a debate in progress can be settled, so a debate is settled at most
/// once: after a settlement the debate is completed, and every further
/// settlement is refused, whoever asks, whatever winner is named and
/// whatever the accounts hold. The authority is told that the status of
/// the debate does not allow it.
pub proof fn lemma_settle_only_once(
    debate: Debate,
    winner: DebatePosition,
    now: i64,
    platform: Platform,
    caller: Address,
    escrow: LedgerAccount,
    winner_account: LedgerAccount,
    treasury: LedgerAccount,
)
    ensures
        settled(debate, winner, now).status == DebateStatus::Completed,
        settle_debate_error(
            platform,
            caller,
            settled(debate, winner, now),
            escrow,
            winner_account,
            treasury,
        ) is Some,
        platform.authorizes(caller) ==> settle_debate_error(
            platform,
            caller,
            settled(debate, winner, now),
            escrow,
            winner_account,
            treasury,
        ) == Some(ErrorCode::InvalidDebateStatus),
        debate.status != DebateStatus::InProgress ==> settle_debate_error(
            platform,
            caller,
            debate,
            escrow,
            winner_account,
            treasury,
        ) is Some,
        debate.status != DebateStatus::InProgress && platform.authorizes(caller)
            ==> settle_debate_error(platform, caller, debate, escrow, winner_account, treasury)
            == Some(ErrorCode::InvalidDebateStatus),
{
}

/// When a settlement is owed: the authority settles a debate in progress
/// whenever the treasury presented is the platform's, escrow, payee and
/// treasury are three accounts, the fee is valid, escrow holds the pool of
/// two stakes, and payee and treasury have room for it.
pub proof fn lemma_settlement_is_owed(
    platform: Platform,
    caller: Address,
    debate: Debate,
    escrow: LedgerAccount,
    winner_account: LedgerAccount,
    treasury: LedgerAccount,
)
    requires
        platform.well_formed(),
        platform.authorizes(caller),
        debate.status == DebateStatus::InProgress,
        treasury.address == platform.treasury,
        pairwise_distinct(escrow, winner_account, treasury),
        2 * debate.stake_amount <= escrow.balance,
        winner_account.balance + 2 * debate.stake_amount <= u64::MAX,
        treasury.balance + 2 * debate.stake_amount <= u64::MAX,
    ensures
        settle_debate_error(platform, caller, debate, escrow, winner_account, treasury) is None,
{
    lemma_fee_bounds(debate.stake_amount as int, platform.platform_fee_bps as int);
}

/// A settlement moves exactly the pool: where escrow, payee and treasury
/// are three accounts, escrow loses two stakes, and what the payee and the
/// treasury gain adds up to two stakes.
pub proof fn lemma_settlement_moves_the_pool(
    platform: Platform,
    caller: Address,
    debate: Debate,
    escrow: LedgerAccount,
    winner_account: LedgerAccount,
    treasury: LedgerAccount,
)
    requires
        settle_debate_error(platform, caller, debate, escrow, winner_account, treasury) is None,
        pairwise_distinct(escrow, winner_account, treasury),
    ensures
        ({
            let stake = debate.stake_amount;
            let fee_bps = platform.platform_fee_bps;
            let escrow_after = after_settlement(
                escrow,
                escrow,
                winner_account,
                treasury,
                stake,
                fee_bps,
            );
            let payee_after = after_settlement(
                winner_account,
                escrow,
                winner_account,
                treasury,
                stake,
                fee_bps,
            );
            let treasury_after = after_settlement(
                treasury,
                escrow,
                winner_account,
                treasury,
                stake,
                fee_bps,
            );
            &&& escrow_after.balance == escrow.balance - 2 * stake
            &&& (payee_after.balance - winner_account.balance) + (treasury_after.balance
                - treasury.balance) == 2 * stake
            &&& payee_after.balance - winner_account.balance == winner_payout(
                stake as int,
                fee_bps as int,
            )
            &&& treasury_after.balance - treasury.balance == platform_fee(
                stake as int,
                fee_bps as int,
            )
        }),
{
    lemma_fee_bounds(debate.stake_amount as int, platform.platform_fee_bps as int);
}

/// A debate is started at most once: after a start the debate is in
/// progress, and every further start is refused.
pub proof fn lemma_start_only_once(debate: Debate, now: i64, platform: Platform, caller: Address)
    ensures
        started(debate, now).status == DebateStatus::InProgress,
        start_debate_error(platform, caller, started(debate, now)) is Some,
{
}

/// The lifecycle only moves forward: a start leads from pending to in
/// progress, a settlement from in progress to completed, a round result
/// leaves the status as it is, and no step produces a cancelled debate.
pub proof fn lemma_lifecycle_moves_forward(
    debate: Debate,
    platform: Platform,
    caller: Address,
    now: i64,
    round: u8,
    pro_votes: u32,
    con_votes: u32,
    winner: DebatePosition,
    escrow: LedgerAccount,
    winner_account: LedgerAccount,
    treasury: LedgerAccount,
)
    ensures
        start_debate_error(platform, caller, debate) is None ==> debate.status
            == DebateStatus::Pending && started(debate, now).status == DebateStatus::InProgress,
        submit_round_result_error(platform, caller, debate, round, pro_votes, con_votes)
            is None ==> debate.status == DebateStatus::InProgress && scored(
            debate,
            pro_votes,
            con_votes,
        ).status == DebateStatus::InProgress,
        settle_debate_error(platform, caller, debate, escrow, winner_account, treasury)
            is None ==> debate.status == DebateStatus::InProgress && settled(
            debate,
            winner,
            now,
        ).status == DebateStatus::Completed,
{
}

/// Every step of the lifecycle keeps a debate well formed: a winner is
/// named exactly when the debate is completed.
pub proof fn lemma_lifecycle_keeps_well_formed(
    debate: Debate,
    platform: Platform,
    caller: Address,
    now: i64,
    round: u8,
    pro_votes: u32,
    con_votes: u32,
    winner: DebatePosition,
    escrow: LedgerAccount,
    winner_account: LedgerAccount,
    treasury: LedgerAccount,
)
    requires
        debate.well_formed(),
    ensures
        debate.winner is Some <==> debate.status == DebateStatus::Completed,
        start_debate_error(platform, caller, debate) is None ==> started(
            debate,
            now,
        ).well_formed(),
        submit_round_result_error(platform, caller, debate, round, pro_votes, con_votes)
            is None ==> scored(debate, pro_votes, con_votes).well_formed(),
        settle_debate_error(platform, caller, debate, escrow, winner_account, treasury)
            is None ==> settled(debate, winner, now).well_formed(),
{
}

/// A settlement never takes more out of escrow than escrow holds, and what
/// leaves escrow is what the winner and the treasury receive.
pub proof fn lemma_settlement_within_escrow(
    platform: Platform,
    caller: Address,
    debate: Debate,
    escrow: LedgerAccount,
    winner_account: LedgerAccount,
    treasury: LedgerAccount,
)
    requires
        settle_debate_error(platform, caller, debate, escrow, winner_account, treasury) is None,
    ensures
        0 <= stake_pool(debate.stake_amount as int) <= escrow.balance,
        winner_payout(debate.stake_amount as int, platform.platform_fee_bps as int) + platform_fee(
            debate.stake_amount as int,
            platform.platform_fee_bps as int,
        ) == stake_pool(debate.stake_amount as int),
        0 <= platform_fee(debate.stake_amount as int, platform.platform_fee_bps as int),
        0 <= winner_payout(debate.stake_amount as int, platform.platform_fee_bps as int),
{
    lemma_fee_bounds(debate.stake_amount as int, platform.platform_fee_bps as int);
}

} // verus!
