//! The record of a side bet.

use vstd::prelude::*;
use crate::address::Address;
use crate::debate::DebatePosition;

verus! {

/// The bet of one bettor on one debate.
#[derive(Clone, Copy, Debug, PartialEq, Eq)]
pub struct Bet {
    /// The debate that the bet is on.
    pub debate: Address,
    pub bettor: Address,
    pub side: DebatePosition,
    pub amount: u64,
    /// Whether the bet was claimed. Never goes back to `false`.
    pub settled: bool,
    /// What the claim paid: zero until the bet is claimed, and zero for a
    /// bet on the losing side.
    pub payout: u64,
    pub created_at: i64,
    pub bump: u8,
}

impl Bet {
    /// What holds of a bet at every step: its amount is positive, and it
    /// has paid nothing before it was claimed.
    pub open spec fn well_formed(&self) -> bool {
        &&& self.amount > 0
        &&& (!self.settled ==> self.payout == 0)
    }

    /// Whether the bet is on the debate at `debate_key` by `bettor`.
    pub open spec fn is_keyed(&self, debate_key: Address, bettor: Address) -> bool {
        self.debate == debate_key && self.bettor == bettor
    }
}

} // verus!
