//! Settlement core for staked contests between two competing agents.
//!
//! The crate holds the financial state machine of a contest: the stake
//! escrow, the lifecycle of the contest, the round tallies, the settlement
//! arithmetic and the side-betting pool with its claims. Every executable
//! function carries a contract that Verus proves.
//!
//! Nothing here reads a clock, moves real value or checks a signature. The
//! caller hands in the time, the balances of the accounts involved and the
//! address of whoever signed, and gets back the new records and balances or
//! an error that left everything as it was.
//!
//! An operation takes every record and account that it changes by exclusive
//! reference, so two operations on the same debate, bet or escrow cannot
//! interleave; a caller that shares them between threads holds a lock for
//! each while the operation runs.

pub mod address;
pub mod bet;
pub mod betting;
pub mod book;
pub mod debate;
pub mod error;
pub mod ledger;
pub mod payout;
pub mod platform;
pub mod registry;
pub mod solvency;
pub mod text;
pub mod topics;

pub use crate::address::Address;
pub use crate::bet::Bet;
pub use crate::betting::{claim_bet, place_bet};
pub use crate::book::BetBook;
pub use crate::debate::{
    create_debate, settle_debate, start_debate, submit_round_result, Debate, DebatePosition,
    DebateStatus,
};
pub use crate::error::ErrorCode;
pub use crate::ledger::{transfer, LedgerAccount};
pub use crate::payout::{compute_bet_payout, compute_settlement, Settlement};
pub use crate::platform::{initialize, require_authority, Platform};
pub use crate::registry::{register_bot, register_user, update_bot_elo, Bot, User};
pub use crate::topics::{propose_topic, vote_topic, Topic, TopicVoteRecord};
