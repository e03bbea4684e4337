//! The ledger primitive: accounts that hold value, and the transfer that
//! moves value from one to another or fails without effect.

use vstd::prelude::*;
use crate::address::Address;
use crate::error::ErrorCode;

verus! {

/// An account on the ledger: a payer, a payee, the treasury, or the escrow
/// of a debate. Its balance is unsigned, so it is never negative.
#[derive(Clone, Copy, Debug, PartialEq, Eq)]
pub struct LedgerAccount {
    pub address: Address,
    pub balance: u64,
}

/// `account` after `amount` left it.
pub open spec fn debited(account: LedgerAccount, amount: u64) -> LedgerAccount {
    LedgerAccount { address: account.address, balance: (account.balance - amount) as u64 }
}

/// `account` after `amount` reached it.
pub open spec fn credited(account: LedgerAccount, amount: u64) -> LedgerAccount {
    LedgerAccount { address: account.address, balance: (account.balance + amount) as u64 }
}

/// Whether `a`, `b` and `c` are three different accounts.
pub open spec fn pairwise_distinct(a: LedgerAccount, b: LedgerAccount, c: LedgerAccount) -> bool {
    a.address != b.address && a.address != c.address && b.address != c.address
}

/// Which error, if any, keeps `amount` from moving from `from` to `to`: the
/// two must be different accounts, the payer must hold the amount, and the
/// payee's balance must have room for it.
pub open spec fn transfer_error(from: LedgerAccount, to: LedgerAccount, amount: u64) -> Option<
    ErrorCode,
> {
    if from.address == to.address {
        Some(ErrorCode::RecordMismatch)
    } else if from.balance < amount {
        Some(ErrorCode::InsufficientFunds)
    } else if to.balance + amount > u64::MAX {
        Some(ErrorCode::ArithmeticOverflow)
    } else {
        None
    }
}

impl LedgerAccount {
    /// An account at `address` that holds `balance`.
    pub fn new(address: Address, balance: u64) -> (a: LedgerAccount)
        ensures
            a == (LedgerAccount { address, balance }),
    {
        LedgerAccount { address, balance }
    }
}

/// Whether `a` and `b` can both be true of the ledger at one moment: where
/// they carry one address they are one account, and hold one balance.
pub open spec fn agree(a: LedgerAccount, b: LedgerAccount) -> bool {
    a.address == b.address ==> a.balance == b.balance
}

/// Whether any two of `a`, `b` and `c` agree.
pub open spec fn coherent(a: LedgerAccount, b: LedgerAccount, c: LedgerAccount) -> bool {
    agree(a, b) && agree(a, c) && agree(b, c)
}

/// Tests `agree`.
pub fn do_agree(a: &LedgerAccount, b: &LedgerAccount) -> (r: bool)
    ensures
        r == agree(*a, *b),
{
    !a.address.same(&b.address) || a.balance == b.balance
}

/// Moves `amount` from `from` to `to`. Either the whole amount moves, or an
/// error is returned and both accounts are as they were.
pub fn transfer(from: &mut LedgerAccount, to: &mut LedgerAccount, amount: u64) -> (r: Result<
    (),
    ErrorCode,
>)
    ensures
        match transfer_error(*old(from), *old(to), amount) {
            Some(e) => {
                &&& r == Err::<(), ErrorCode>(e)
                &&& *final(from) == *old(from)
                &&& *final(to) == *old(to)
            },
            None => {
                &&& r == Ok::<(), ErrorCode>(())
                &&& *final(from) == debited(*old(from), amount)
                &&& *final(to) == credited(*old(to), amount)
                &&& final(from).balance + final(to).balance
                    == old(from).balance + old(to).balance
            },
        },
{
    if from.address.same(&to.address) {
        return Err(ErrorCode::RecordMismatch);
    }
    if from.balance < amount {
        return Err(ErrorCode::InsufficientFunds);
    }
    let raised: u64 = match to.balance.checked_add(amount) {
        Some(b) => b,
        None => {
            return Err(ErrorCode::ArithmeticOverflow);
        },
    };
    from.balance = from.balance - amount;
    to.balance = raised;
    Ok(())
}

} // verus!
