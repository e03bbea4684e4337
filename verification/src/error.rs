//! The errors that the operations of this crate report.

use vstd::prelude::*;

verus! {

/// Why an operation was refused. An operation that returns an error has
/// changed nothing.
#[derive(Clone, Copy, Debug, PartialEq, Eq, Structural)]
pub enum ErrorCode {
    /// The platform fee exceeds ten percent.
    FeeTooHigh,
    /// A user name is longer than 32 bytes.
    UsernameTooLong,
    /// A bot name is longer than 50 bytes.
    BotNameTooLong,
    /// A topic text is shorter than 10 or longer than 500 bytes.
    InvalidTopicLength,
    /// A topic category is longer than 32 bytes.
    CategoryTooLong,
    /// The vote record already carries a vote.
    AlreadyVoted,
    /// The stake of a debate is zero.
    InvalidStake,
    /// The debate is not in the status that the operation needs.
    InvalidDebateStatus,
    /// The round number is outside 1..=3.
    InvalidRound,
    /// A claim was made before the debate was completed.
    DebateNotCompleted,
    /// The debate is completed but names no winner.
    NoWinner,
    /// The amount of a bet is zero.
    InvalidBetAmount,
    /// The debate has left the pending status, so betting is closed.
    BettingClosed,
    /// The bet has been claimed before.
    BetAlreadySettled,
    /// The caller is not the party that may perform the operation.
    Unauthorized,
    /// A record or account does not fit the others it was presented with:
    /// it belongs to another party or debate, or one account stands in two
    /// roles.
    RecordMismatch,
    /// The paying account holds less than the amount to move.
    InsufficientFunds,
    /// A sum, product or counter would leave the range of its type.
    ArithmeticOverflow,
    /// The bettor already has a bet on this debate.
    BetAlreadyPlaced,
    /// The bettor has no bet on this debate.
    BetNotFound,
}

} // verus!
