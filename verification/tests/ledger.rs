use ai_debates::ledger::do_agree;
use ai_debates::{transfer, Address, ErrorCode, LedgerAccount};

fn account(tag: u8, balance: u64) -> LedgerAccount {
    LedgerAccount::new(Address::new([tag; 32]), balance)
}

#[test]
fn address_equality_is_by_bytes() {
    let a = Address::new([1; 32]);
    let b = Address { bytes: [1; 32] };
    let mut other = [1u8; 32];
    other[31] = 2;
    let c = Address::new(other);
    assert!(a.same(&b));
    assert!(!a.same(&c));
    assert_eq!(a, b);
    assert_ne!(a, c);
    let mut first = [1u8; 32];
    first[0] = 0;
    assert_ne!(a, Address::new(first));
}

#[test]
fn transfer_moves_the_whole_amount() {
    let mut from = account(1, 100);
    let mut to = account(2, 5);
    assert_eq!(transfer(&mut from, &mut to, 60), Ok(()));
    assert_eq!(from, account(1, 40));
    assert_eq!(to, account(2, 65));
}

#[test]
fn transfer_can_empty_the_payer() {
    let mut from = account(1, 100);
    let mut to = account(2, 0);
    assert_eq!(transfer(&mut from, &mut to, 100), Ok(()));
    assert_eq!(from.balance, 0);
    assert_eq!(to.balance, 100);
}

#[test]
fn transfer_of_nothing_changes_nothing() {
    let mut from = account(1, 0);
    let mut to = account(2, u64::MAX);
    assert_eq!(transfer(&mut from, &mut to, 0), Ok(()));
    assert_eq!(from, account(1, 0));
    assert_eq!(to, account(2, u64::MAX));
}

#[test]
fn transfer_refuses_more_than_the_payer_holds() {
    let mut from = account(1, 99);
    let mut to = account(2, 5);
    assert_eq!(transfer(&mut from, &mut to, 100), Err(ErrorCode::InsufficientFunds));
    assert_eq!(from, account(1, 99));
    assert_eq!(to, account(2, 5));
}

#[test]
fn transfer_refuses_to_overflow_the_payee() {
    let mut from = account(1, 10);
    let mut to = account(2, u64::MAX - 5);
    assert_eq!(transfer(&mut from, &mut to, 6), Err(ErrorCode::ArithmeticOverflow));
    assert_eq!(from, account(1, 10));
    assert_eq!(to, account(2, u64::MAX - 5));
    assert_eq!(transfer(&mut from, &mut to, 5), Ok(()));
    assert_eq!(to.balance, u64::MAX);
}

#[test]
fn transfer_reports_missing_funds_before_overflow() {
    let mut from = account(1, 1);
    let mut to = account(2, u64::MAX);
    assert_eq!(transfer(&mut from, &mut to, 2), Err(ErrorCode::InsufficientFunds));
}

#[test]
fn the_zero_address_has_only_zero_bytes() {
    assert_eq!(Address::zero(), Address::new([0; 32]));
    assert_eq!(Address::zero().bytes, [0u8; 32]);
    assert_ne!(Address::zero(), Address::new([1; 32]));
}

#[test]
fn a_new_account_holds_what_it_was_given() {
    let a = LedgerAccount::new(Address::new([9; 32]), 42);
    assert_eq!(a.address, Address::new([9; 32]));
    assert_eq!(a.balance, 42);
}

#[test]
fn transfer_refuses_an_account_that_pays_itself() {
    let mut from = account(1, 100);
    let mut copy = account(1, 100);
    assert_eq!(transfer(&mut from, &mut copy, 10), Err(ErrorCode::RecordMismatch));
    assert_eq!(transfer(&mut from, &mut copy, 0), Err(ErrorCode::RecordMismatch));
    assert_eq!(transfer(&mut from, &mut copy, 101), Err(ErrorCode::RecordMismatch));
    assert_eq!((from, copy), (account(1, 100), account(1, 100)));
}

#[test]
fn two_accounts_agree_unless_one_address_shows_two_balances() {
    assert!(do_agree(&account(1, 5), &account(2, 9)));
    assert!(do_agree(&account(1, 5), &account(1, 5)));
    assert!(!do_agree(&account(1, 5), &account(1, 6)));
    assert!(do_agree(&account(1, 0), &account(2, 0)));
}
