use ai_debates::{
    claim_bet, create_debate, initialize, place_bet, register_user, settle_debate, start_debate,
    Address, Bet, BetBook, Debate, DebatePosition, DebateStatus, ErrorCode, LedgerAccount,
    Platform, User,
};

const AUTHORITY: u8 = 1;
const TREASURY: u8 = 2;
const ESCROW: u8 = 12;
const DEBATE: u8 = 40;

fn addr(tag: u8) -> Address {
    Address::new([tag; 32])
}

fn account(tag: u8, balance: u64) -> LedgerAccount {
    LedgerAccount::new(addr(tag), balance)
}

fn platform(fee_bps: u16) -> Platform {
    initialize(addr(AUTHORITY), addr(TREASURY), fee_bps, 254).unwrap()
}

fn user(tag: u8) -> User {
    let mut p = platform(250);
    register_user(&mut p, addr(tag), String::from("bettor"), 1, 2).unwrap()
}

fn pending(stake: u64) -> (Debate, LedgerAccount) {
    let mut p = platform(250);
    let mut pro = account(10, stake);
    let mut con = account(11, stake);
    let mut escrow = account(ESCROW, 0);
    let d = create_debate(
        &mut p,
        addr(20),
        addr(21),
        &mut pro,
        &mut con,
        &mut escrow,
        String::from("Is a hot dog a sandwich?"),
        stake,
        100,
        7,
    )
    .unwrap();
    (d, escrow)
}

/// Starts the debate and settles it for `winner` at the given fee, paying
/// the pool out of `escrow`.
fn complete(d: &mut Debate, escrow: &mut LedgerAccount, fee_bps: u16, winner: DebatePosition) {
    let p = platform(fee_bps);
    start_debate(&p, &addr(AUTHORITY), d, 200).unwrap();
    let mut payee = account(30, 0);
    let mut treasury = account(TREASURY, 0);
    settle_debate(&p, &addr(AUTHORITY), d, escrow, &mut payee, &mut treasury, winner, 300)
        .unwrap();
}

/// An unclaimed bet of `bettor` on the debate at `DEBATE`.
fn bet(bettor: u8, side: DebatePosition, amount: u64) -> Bet {
    Bet {
        debate: addr(DEBATE),
        bettor: addr(bettor),
        side,
        amount,
        settled: false,
        payout: 0,
        created_at: 150,
        bump: 3,
    }
}

#[test]
fn place_bet_moves_the_amount_into_escrow() {
    let (d, mut escrow) = pending(100);
    let mut bettor = account(50, 1_500);
    let mut u = user(50);
    let b = place_bet(
        &mut BetBook::new(),
        addr(DEBATE),
        &d,
        &mut bettor,
        &mut escrow,
        &mut u,
        DebatePosition::Con,
        1_000,
        150,
        3,
    )
    .unwrap();
    assert_eq!(b, bet(50, DebatePosition::Con, 1_000));
    assert_eq!(bettor, account(50, 500));
    assert_eq!(escrow, account(ESCROW, 1_200));
    assert_eq!(u, User { total_wagered: 1_000, ..user(50) });
}

#[test]
fn place_bet_refuses_a_zero_amount() {
    let (d, mut escrow) = pending(100);
    let mut bettor = account(50, 1_500);
    let mut u = user(50);
    let r = place_bet(&mut BetBook::new(), addr(DEBATE), &d, &mut bettor, &mut escrow, &mut u, DebatePosition::Con, 0, 150, 3);
    assert_eq!(r, Err(ErrorCode::InvalidBetAmount));
    assert_eq!((bettor, escrow, u), (account(50, 1_500), account(ESCROW, 200), user(50)));
}

#[test]
fn betting_closes_when_the_debate_starts() {
    let (mut d, mut escrow) = pending(100);
    start_debate(&platform(250), &addr(AUTHORITY), &mut d, 200).unwrap();
    let mut bettor = account(50, 1_500);
    let mut u = user(50);
    let r = place_bet(&mut BetBook::new(), addr(DEBATE), &d, &mut bettor, &mut escrow, &mut u, DebatePosition::Pro, 10, 250, 3);
    assert_eq!(r, Err(ErrorCode::BettingClosed));
    assert_eq!((bettor, escrow, u.clone()), (account(50, 1_500), account(ESCROW, 200), user(50)));

    let mut book = BetBook::new();
    let r = place_bet(&mut book, addr(DEBATE), &d, &mut bettor, &mut escrow, &mut u, DebatePosition::Pro, 10, 250, 3);
    assert_eq!(r, Err(ErrorCode::BettingClosed));
    assert_eq!(book.len(), 0);
}

#[test]
fn betting_stays_closed_after_settlement() {
    let (mut d, mut escrow) = pending(100);
    complete(&mut d, &mut escrow, 250, DebatePosition::Pro);
    let mut bettor = account(50, 1_500);
    let mut u = user(50);
    let r = place_bet(&mut BetBook::new(), addr(DEBATE), &d, &mut bettor, &mut escrow, &mut u, DebatePosition::Pro, 10, 350, 3);
    assert_eq!(r, Err(ErrorCode::BettingClosed));
    let cancelled = Debate { status: DebateStatus::Cancelled, ..pending(100).0 };
    let r = place_bet(&mut BetBook::new(), addr(DEBATE), &cancelled, &mut bettor, &mut escrow, &mut u, DebatePosition::Pro, 10, 350, 3);
    assert_eq!(r, Err(ErrorCode::BettingClosed));
    assert_eq!((bettor, escrow, u), (account(50, 1_500), account(ESCROW, 0), user(50)));
}

#[test]
fn place_bet_needs_the_bettors_own_user_record() {
    let (d, mut escrow) = pending(100);
    let mut bettor = account(50, 1_500);
    let mut stranger = user(51);
    let r = place_bet(&mut BetBook::new(), addr(DEBATE), &d, &mut bettor, &mut escrow, &mut stranger, DebatePosition::Pro, 10, 150, 3);
    assert_eq!(r, Err(ErrorCode::Unauthorized));
    assert_eq!((bettor, escrow, stranger), (account(50, 1_500), account(ESCROW, 200), user(51)));
}

#[test]
fn place_bet_fails_when_the_bettor_cannot_pay() {
    let (d, mut escrow) = pending(100);
    let mut bettor = account(50, 999);
    let mut u = user(50);
    let r = place_bet(&mut BetBook::new(), addr(DEBATE), &d, &mut bettor, &mut escrow, &mut u, DebatePosition::Pro, 1_000, 150, 3);
    assert_eq!(r, Err(ErrorCode::InsufficientFunds));
    assert_eq!((bettor, escrow, u), (account(50, 999), account(ESCROW, 200), user(50)));
}

#[test]
fn place_bet_fails_rather_than_overflow() {
    let (d, _) = pending(100);
    let mut bettor = account(50, 1_000);
    let mut full = account(ESCROW, u64::MAX - 999);
    let mut u = user(50);
    let r = place_bet(&mut BetBook::new(), addr(DEBATE), &d, &mut bettor, &mut full, &mut u, DebatePosition::Pro, 1_000, 150, 3);
    assert_eq!(r, Err(ErrorCode::ArithmeticOverflow));
    assert_eq!((bettor, full, u.clone()), (account(50, 1_000), account(ESCROW, u64::MAX - 999), user(50)));

    let mut escrow = account(ESCROW, 0);
    let mut heavy = User { total_wagered: u64::MAX - 999, ..user(50) };
    let r = place_bet(&mut BetBook::new(), addr(DEBATE), &d, &mut bettor, &mut escrow, &mut heavy, DebatePosition::Pro, 1_000, 150, 3);
    assert_eq!(r, Err(ErrorCode::ArithmeticOverflow));
    assert_eq!((bettor, escrow), (account(50, 1_000), account(ESCROW, 0)));
    assert_eq!(heavy.total_wagered, u64::MAX - 999);
    let r = place_bet(&mut BetBook::new(), addr(DEBATE), &d, &mut bettor, &mut escrow, &mut heavy, DebatePosition::Pro, 999, 150, 3);
    assert!(r.is_ok());
    assert_eq!(heavy.total_wagered, u64::MAX);
}

#[test]
fn a_winning_claim_pays_twice_the_amount_less_the_fee() {
    let p = platform(250);
    let (mut d, mut escrow) = pending(1_000_000);
    escrow.balance += 800_000;
    complete(&mut d, &mut escrow, 250, DebatePosition::Pro);
    assert_eq!(escrow.balance, 800_000);
    let mut b = bet(50, DebatePosition::Pro, 400_000);
    let mut bettor = account(50, 11);
    let mut u = user(50);
    let r = claim_bet(&p, &addr(DEBATE), &d, &mut b, &mut escrow, &mut bettor, &mut u);
    assert_eq!(r, Ok(()));
    assert_eq!(b, Bet { settled: true, payout: 780_000, ..bet(50, DebatePosition::Pro, 400_000) });
    assert_eq!(escrow, account(ESCROW, 20_000));
    assert_eq!(bettor, account(50, 780_011));
    assert_eq!(u, User { total_won: 780_000, ..user(50) });
}

#[test]
fn a_losing_claim_settles_the_bet_and_pays_nothing() {
    let p = platform(250);
    let (mut d, mut escrow) = pending(100);
    escrow.balance += 1_000;
    complete(&mut d, &mut escrow, 250, DebatePosition::Pro);
    let mut b = bet(50, DebatePosition::Con, 1_000);
    let mut bettor = account(50, 11);
    let mut u = user(50);
    let r = claim_bet(&p, &addr(DEBATE), &d, &mut b, &mut escrow, &mut bettor, &mut u);
    assert_eq!(r, Ok(()));
    assert_eq!(b, Bet { settled: true, payout: 0, ..bet(50, DebatePosition::Con, 1_000) });
    assert_eq!(escrow, account(ESCROW, 1_000));
    assert_eq!(bettor, account(50, 11));
    assert_eq!(u, user(50));
}

#[test]
fn a_losing_claim_needs_nothing_in_escrow() {
    let p = Platform { platform_fee_bps: 5_000, ..platform(250) };
    let (mut d, mut escrow) = pending(100);
    complete(&mut d, &mut escrow, 250, DebatePosition::Pro);
    assert_eq!(escrow.balance, 0);
    let mut b = bet(50, DebatePosition::Con, u64::MAX);
    let mut bettor = account(50, u64::MAX);
    let mut u = User { total_won: u64::MAX, ..user(50) };
    let r = claim_bet(&p, &addr(DEBATE), &d, &mut b, &mut escrow, &mut bettor, &mut u);
    assert_eq!(r, Ok(()));
    assert!(b.settled);
    assert_eq!((b.payout, escrow.balance, bettor.balance, u.total_won), (0, 0, u64::MAX, u64::MAX));
}

#[test]
fn a_bet_is_claimed_only_once() {
    let p = platform(250);
    let (mut d, mut escrow) = pending(1_000_000);
    escrow.balance += 5_000_000;
    complete(&mut d, &mut escrow, 250, DebatePosition::Pro);
    let mut b = bet(50, DebatePosition::Pro, 400_000);
    let mut bettor = account(50, 0);
    let mut u = user(50);
    assert_eq!(claim_bet(&p, &addr(DEBATE), &d, &mut b, &mut escrow, &mut bettor, &mut u), Ok(()));
    let after = (b, escrow, bettor, u.clone());
    assert_eq!(b.payout, 780_000);
    let again = claim_bet(&p, &addr(DEBATE), &d, &mut b, &mut escrow, &mut bettor, &mut u);
    assert_eq!(again, Err(ErrorCode::BetAlreadySettled));
    assert_eq!((b, escrow, bettor, u), after);
    assert_eq!(b.payout, 780_000);
    assert_eq!(bettor.balance, 780_000);
    assert_eq!(escrow.balance, 5_000_000 - 780_000);
}

#[test]
fn a_lost_bet_is_claimed_only_once_too() {
    let p = platform(250);
    let (mut d, mut escrow) = pending(100);
    complete(&mut d, &mut escrow, 250, DebatePosition::Pro);
    let mut b = bet(50, DebatePosition::Con, 1_000);
    let mut bettor = account(50, 0);
    let mut u = user(50);
    assert_eq!(claim_bet(&p, &addr(DEBATE), &d, &mut b, &mut escrow, &mut bettor, &mut u), Ok(()));
    let again = claim_bet(&p, &addr(DEBATE), &d, &mut b, &mut escrow, &mut bettor, &mut u);
    assert_eq!(again, Err(ErrorCode::BetAlreadySettled));
    assert_eq!(b.payout, 0);
    assert!(b.settled);
}

#[test]
fn a_claim_waits_for_the_debate_to_be_completed() {
    let p = platform(250);
    let (mut d, mut escrow) = pending(100);
    escrow.balance += 10_000;
    let mut b = bet(50, DebatePosition::Pro, 1_000);
    let mut bettor = account(50, 0);
    let mut u = user(50);
    let r = claim_bet(&p, &addr(DEBATE), &d, &mut b, &mut escrow, &mut bettor, &mut u);
    assert_eq!(r, Err(ErrorCode::DebateNotCompleted));
    start_debate(&p, &addr(AUTHORITY), &mut d, 200).unwrap();
    let r = claim_bet(&p, &addr(DEBATE), &d, &mut b, &mut escrow, &mut bettor, &mut u);
    assert_eq!(r, Err(ErrorCode::DebateNotCompleted));
    assert_eq!(b, bet(50, DebatePosition::Pro, 1_000));
    assert_eq!((escrow, bettor, u), (account(ESCROW, 10_200), account(50, 0), user(50)));
}

#[test]
fn a_completed_debate_without_a_winner_pays_no_claim() {
    let p = platform(250);
    let broken = Debate {
        status: DebateStatus::Completed,
        started_at: Some(1),
        completed_at: Some(2),
        ..pending(100).0
    };
    assert!(!broken.is_well_formed());
    let mut escrow = account(ESCROW, 10_000);
    let mut b = bet(50, DebatePosition::Pro, 1_000);
    let mut bettor = account(50, 0);
    let mut u = user(50);
    let r = claim_bet(&p, &addr(DEBATE), &broken, &mut b, &mut escrow, &mut bettor, &mut u);
    assert_eq!(r, Err(ErrorCode::NoWinner));
    assert_eq!(b, bet(50, DebatePosition::Pro, 1_000));
    assert_eq!((escrow, bettor, u), (account(ESCROW, 10_000), account(50, 0), user(50)));
}

#[test]
fn only_the_bettor_claims_a_bet() {
    let p = platform(250);
    let (mut d, mut escrow) = pending(100);
    escrow.balance += 10_000;
    complete(&mut d, &mut escrow, 250, DebatePosition::Pro);
    let mut b = bet(50, DebatePosition::Pro, 1_000);
    let mut thief = account(51, 0);
    let mut thief_user = user(51);
    let r = claim_bet(&p, &addr(DEBATE), &d, &mut b, &mut escrow, &mut thief, &mut thief_user);
    assert_eq!(r, Err(ErrorCode::Unauthorized));
    let mut bettor = account(50, 0);
    let r = claim_bet(&p, &addr(DEBATE), &d, &mut b, &mut escrow, &mut bettor, &mut thief_user);
    assert_eq!(r, Err(ErrorCode::Unauthorized));
    assert_eq!(b, bet(50, DebatePosition::Pro, 1_000));
    assert_eq!((escrow, thief, bettor), (account(ESCROW, 10_000), account(51, 0), account(50, 0)));
    assert_eq!(thief_user, user(51));
}

#[test]
fn a_bet_is_claimed_against_its_own_debate_only() {
    let p = platform(250);
    let (mut d, mut escrow) = pending(100);
    escrow.balance += 10_000;
    complete(&mut d, &mut escrow, 250, DebatePosition::Pro);
    let mut b = bet(50, DebatePosition::Pro, 1_000);
    let mut bettor = account(50, 0);
    let mut u = user(50);
    let r = claim_bet(&p, &addr(41), &d, &mut b, &mut escrow, &mut bettor, &mut u);
    assert_eq!(r, Err(ErrorCode::RecordMismatch));
    assert_eq!(b, bet(50, DebatePosition::Pro, 1_000));
    assert_eq!((escrow, bettor, u), (account(ESCROW, 10_000), account(50, 0), user(50)));
}

#[test]
fn a_claim_that_escrow_cannot_cover_is_refused() {
    let p = platform(500);
    let (mut d, mut escrow) = pending(100);
    escrow.balance += 1_899;
    complete(&mut d, &mut escrow, 500, DebatePosition::Pro);
    assert_eq!(escrow.balance, 1_899);
    let mut b = bet(50, DebatePosition::Pro, 1_000);
    let mut bettor = account(50, 0);
    let mut u = user(50);
    let r = claim_bet(&p, &addr(DEBATE), &d, &mut b, &mut escrow, &mut bettor, &mut u);
    assert_eq!(r, Err(ErrorCode::InsufficientFunds));
    assert_eq!(b, bet(50, DebatePosition::Pro, 1_000));
    assert_eq!((escrow, bettor, u.clone()), (account(ESCROW, 1_899), account(50, 0), user(50)));
    escrow.balance = 1_900;
    let r = claim_bet(&p, &addr(DEBATE), &d, &mut b, &mut escrow, &mut bettor, &mut u);
    assert_eq!(r, Ok(()));
    assert_eq!((escrow.balance, bettor.balance, b.payout), (0, 1_900, 1_900));
}

#[test]
fn a_claim_fails_rather_than_overflow() {
    let p = platform(0);
    let (mut d, mut escrow) = pending(100);
    escrow.balance = u64::MAX;
    complete(&mut d, &mut escrow, 0, DebatePosition::Pro);

    let mut huge = bet(50, DebatePosition::Pro, u64::MAX / 2 + 1);
    let mut bettor = account(50, 0);
    let mut u = user(50);
    let r = claim_bet(&p, &addr(DEBATE), &d, &mut huge, &mut escrow, &mut bettor, &mut u);
    assert_eq!(r, Err(ErrorCode::ArithmeticOverflow));
    assert!(!huge.settled);

    let mut b = bet(50, DebatePosition::Pro, 1_000);
    let mut rich = account(50, u64::MAX - 1_999);
    let r = claim_bet(&p, &addr(DEBATE), &d, &mut b, &mut escrow, &mut rich, &mut u);
    assert_eq!(r, Err(ErrorCode::ArithmeticOverflow));
    assert_eq!(rich.balance, u64::MAX - 1_999);

    let mut lucky = User { total_won: u64::MAX - 1_999, ..user(50) };
    let r = claim_bet(&p, &addr(DEBATE), &d, &mut b, &mut escrow, &mut bettor, &mut lucky);
    assert_eq!(r, Err(ErrorCode::ArithmeticOverflow));
    assert_eq!(b, bet(50, DebatePosition::Pro, 1_000));
    assert_eq!(bettor.balance, 0);
    assert_eq!(lucky.total_won, u64::MAX - 1_999);
    lucky.total_won -= 1;
    let r = claim_bet(&p, &addr(DEBATE), &d, &mut b, &mut escrow, &mut bettor, &mut lucky);
    assert_eq!(r, Ok(()));
    assert_eq!(lucky.total_won, u64::MAX);
}

#[test]
fn a_winning_claim_refuses_a_platform_with_a_fee_above_ten_percent() {
    let p = Platform { platform_fee_bps: 1_001, ..platform(250) };
    let (mut d, mut escrow) = pending(100);
    escrow.balance += 10_000;
    complete(&mut d, &mut escrow, 250, DebatePosition::Pro);
    let mut b = bet(50, DebatePosition::Pro, 1_000);
    let mut bettor = account(50, 0);
    let mut u = user(50);
    let r = claim_bet(&p, &addr(DEBATE), &d, &mut b, &mut escrow, &mut bettor, &mut u);
    assert_eq!(r, Err(ErrorCode::FeeTooHigh));
    assert_eq!(b, bet(50, DebatePosition::Pro, 1_000));
    assert_eq!(escrow.balance, 10_000);
}

#[test]
fn a_bettor_cannot_place_two_bets_on_one_debate() {
    let (d, mut escrow) = pending(100);
    let mut book = BetBook::new();
    let mut bettor = account(50, 5_000);
    let mut u = user(50);
    let first = place_bet(&mut book, addr(DEBATE), &d, &mut bettor, &mut escrow, &mut u, DebatePosition::Pro, 1_000, 150, 3);
    assert_eq!(first, Ok(bet(50, DebatePosition::Pro, 1_000)));
    let placed = book.lookup(&addr(DEBATE), &addr(50)).unwrap();
    assert_eq!(placed, bet(50, DebatePosition::Pro, 1_000));
    let before = (book.clone(), bettor, escrow, u.clone());

    for (side, amount) in [(DebatePosition::Pro, 1_000), (DebatePosition::Con, 1), (DebatePosition::Con, 0)] {
        let second = place_bet(&mut book, addr(DEBATE), &d, &mut bettor, &mut escrow, &mut u, side, amount, 160, 4);
        assert_eq!(second, Err(ErrorCode::BetAlreadyPlaced));
        assert_eq!((book.clone(), bettor, escrow, u.clone()), before);
    }
    assert_eq!(book.len(), 1);
    assert_eq!(book.get(0), Some(placed));
    assert_eq!(book.lookup(&addr(DEBATE), &addr(50)), Some(placed));
    assert_eq!(escrow.balance, 1_200);
}

#[test]
fn the_book_holds_one_bet_for_each_debate_and_bettor() {
    let (d, mut escrow) = pending(100);
    let mut book = BetBook::new();
    let mut a = account(50, 5_000);
    let mut ua = user(50);
    let mut b = account(51, 5_000);
    let mut ub = user(51);
    assert_eq!(
        place_bet(&mut book, addr(DEBATE), &d, &mut a, &mut escrow, &mut ua, DebatePosition::Pro, 10, 150, 3),
        Ok(bet(50, DebatePosition::Pro, 10))
    );
    assert!(place_bet(&mut book, addr(DEBATE), &d, &mut b, &mut escrow, &mut ub, DebatePosition::Con, 20, 151, 3).is_ok());
    assert!(place_bet(&mut book, addr(41), &d, &mut a, &mut escrow, &mut ua, DebatePosition::Con, 30, 152, 3).is_ok());
    assert_eq!(book.len(), 3);
    assert_eq!(book.find(&addr(DEBATE), &addr(50)), Some(0));
    assert_eq!(book.find(&addr(DEBATE), &addr(51)), Some(1));
    assert_eq!(book.find(&addr(41), &addr(50)), Some(2));
    assert_eq!(book.find(&addr(41), &addr(51)), None);
    assert_eq!(book.lookup(&addr(41), &addr(51)), None);
    assert_eq!(book.lookup(&addr(41), &addr(50)).unwrap().amount, 30);
    assert_eq!(book.get(1).unwrap().bettor, addr(51));
    assert_eq!(book.get(3), None);
    let on_first = book.bets_on(&addr(DEBATE));
    assert_eq!(on_first.len(), 2);
    assert_eq!((on_first[0].amount, on_first[1].amount), (10, 20));
    let on_second = book.bets_on(&addr(41));
    assert_eq!(on_second, vec![Bet { debate: addr(41), created_at: 152, ..bet(50, DebatePosition::Con, 30) }]);
    assert!(book.bets_on(&addr(42)).is_empty());
    assert_eq!(escrow.balance, 260);
    assert_eq!(ua.total_wagered, 40);
}

#[test]
fn an_empty_book_holds_nothing() {
    let book = BetBook::new();
    assert_eq!(book.len(), 0);
    assert_eq!(book.get(0), None);
    assert_eq!(book.find(&addr(DEBATE), &addr(50)), None);
    assert!(book.bets_on(&addr(DEBATE)).is_empty());
    assert_eq!(book, BetBook::new().clone());
}

#[test]
fn a_refused_bet_does_not_enter_the_book() {
    let (d, mut escrow) = pending(100);
    let mut book = BetBook::new();
    let mut bettor = account(50, 5);
    let mut u = user(50);
    assert_eq!(
        place_bet(&mut book, addr(DEBATE), &d, &mut bettor, &mut escrow, &mut u, DebatePosition::Pro, 0, 150, 3),
        Err(ErrorCode::InvalidBetAmount)
    );
    assert_eq!(
        place_bet(&mut book, addr(DEBATE), &d, &mut bettor, &mut escrow, &mut u, DebatePosition::Pro, 6, 150, 3),
        Err(ErrorCode::InsufficientFunds)
    );
    assert_eq!(book.len(), 0);
    assert_eq!(
        place_bet(&mut book, addr(DEBATE), &d, &mut bettor, &mut escrow, &mut u, DebatePosition::Pro, 5, 150, 3),
        Ok(bet(50, DebatePosition::Pro, 5))
    );
    assert_eq!(book.get(0), Some(bet(50, DebatePosition::Pro, 5)));
    assert_eq!(book.len(), 1);
}

#[test]
fn the_book_claims_the_bettors_own_bet() {
    let p = platform(250);
    let (mut d, mut escrow) = pending(1_000_000);
    let mut book = BetBook::new();
    let mut winner = account(50, 400_000);
    let mut uw = user(50);
    let mut loser = account(51, 400_000);
    let mut ul = user(51);
    place_bet(&mut book, addr(DEBATE), &d, &mut winner, &mut escrow, &mut uw, DebatePosition::Pro, 400_000, 150, 3).unwrap();
    place_bet(&mut book, addr(DEBATE), &d, &mut loser, &mut escrow, &mut ul, DebatePosition::Con, 400_000, 151, 3).unwrap();
    complete(&mut d, &mut escrow, 250, DebatePosition::Pro);
    assert_eq!(escrow.balance, 800_000);

    assert_eq!(book.claim(&p, &addr(DEBATE), &d, &mut escrow, &mut loser, &mut ul), Ok(()));
    assert_eq!(book.claim(&p, &addr(DEBATE), &d, &mut escrow, &mut winner, &mut uw), Ok(()));
    assert_eq!((winner.balance, loser.balance, escrow.balance), (780_000, 0, 20_000));
    assert_eq!(book.get(0), Some(Bet { settled: true, payout: 780_000, ..bet(50, DebatePosition::Pro, 400_000) }));
    assert_eq!(
        book.get(1),
        Some(Bet { settled: true, created_at: 151, ..bet(51, DebatePosition::Con, 400_000) })
    );

    let before = (book.clone(), escrow, winner, uw.clone());
    let again = book.claim(&p, &addr(DEBATE), &d, &mut escrow, &mut winner, &mut uw);
    assert_eq!(again, Err(ErrorCode::BetAlreadySettled));
    assert_eq!((book.clone(), escrow, winner, uw), before);
    assert_eq!(
        book.claim(&p, &addr(DEBATE), &d, &mut escrow, &mut loser, &mut ul),
        Err(ErrorCode::BetAlreadySettled)
    );
}

#[test]
fn the_book_has_no_bet_for_a_stranger() {
    let p = platform(250);
    let (mut d, mut escrow) = pending(100);
    let mut book = BetBook::new();
    let mut bettor = account(50, 1_000);
    let mut u = user(50);
    place_bet(&mut book, addr(DEBATE), &d, &mut bettor, &mut escrow, &mut u, DebatePosition::Pro, 1_000, 150, 3).unwrap();
    complete(&mut d, &mut escrow, 250, DebatePosition::Pro);
    let mut stranger = account(51, 0);
    let mut us = user(51);
    let before = book.clone();
    assert_eq!(
        book.claim(&p, &addr(DEBATE), &d, &mut escrow, &mut stranger, &mut us),
        Err(ErrorCode::BetNotFound)
    );
    assert_eq!(
        book.claim(&p, &addr(41), &d, &mut escrow, &mut bettor, &mut u),
        Err(ErrorCode::BetNotFound)
    );
    assert_eq!(book, before);
    assert_eq!((stranger.balance, escrow.balance), (0, 1_000));
}

#[test]
fn losing_bets_leave_escrow_with_a_surplus() {
    let p = platform(500);
    let (mut d, mut escrow) = pending(100);
    let mut book = BetBook::new();
    let mut first = account(50, 1_000);
    let mut u1 = user(50);
    let mut second = account(51, 1_000);
    let mut u2 = user(51);
    place_bet(&mut book, addr(DEBATE), &d, &mut first, &mut escrow, &mut u1, DebatePosition::Con, 1_000, 150, 3).unwrap();
    place_bet(&mut book, addr(DEBATE), &d, &mut second, &mut escrow, &mut u2, DebatePosition::Con, 1_000, 151, 3).unwrap();
    assert_eq!(escrow.balance, 2_200);

    start_debate(&p, &addr(AUTHORITY), &mut d, 200).unwrap();
    let mut payee = account(30, 0);
    let mut treasury = account(TREASURY, 0);
    settle_debate(&p, &addr(AUTHORITY), &mut d, &mut escrow, &mut payee, &mut treasury, DebatePosition::Pro, 300).unwrap();
    assert_eq!((payee.balance, treasury.balance, escrow.balance), (190, 10, 2_000));

    assert_eq!(book.claim(&p, &addr(DEBATE), &d, &mut escrow, &mut first, &mut u1), Ok(()));
    assert_eq!(book.claim(&p, &addr(DEBATE), &d, &mut escrow, &mut second, &mut u2), Ok(()));
    assert_eq!((first.balance, second.balance), (0, 0));
    assert_eq!(escrow.balance, 2_000);
    assert_eq!(book.get(0).unwrap().payout, 0);
    assert_eq!(book.get(1).unwrap().payout, 0);

    let again = settle_debate(&p, &addr(AUTHORITY), &mut d, &mut escrow, &mut payee, &mut treasury, DebatePosition::Pro, 400);
    assert_eq!(again, Err(ErrorCode::InvalidDebateStatus));
    assert_eq!((payee.balance, treasury.balance, escrow.balance), (190, 10, 2_000));
}

#[test]
fn winning_bets_without_counterpart_exhaust_escrow() {
    let p = platform(500);
    let (mut d, mut escrow) = pending(100);
    let mut book = BetBook::new();
    let mut first = account(50, 1_000);
    let mut u1 = user(50);
    let mut second = account(51, 1_000);
    let mut u2 = user(51);
    place_bet(&mut book, addr(DEBATE), &d, &mut first, &mut escrow, &mut u1, DebatePosition::Pro, 1_000, 150, 3).unwrap();
    place_bet(&mut book, addr(DEBATE), &d, &mut second, &mut escrow, &mut u2, DebatePosition::Pro, 1_000, 151, 3).unwrap();
    complete(&mut d, &mut escrow, 500, DebatePosition::Pro);
    assert_eq!(escrow.balance, 2_000);

    assert_eq!(book.claim(&p, &addr(DEBATE), &d, &mut escrow, &mut first, &mut u1), Ok(()));
    assert_eq!((first.balance, escrow.balance), (1_900, 100));

    let before = (book.clone(), escrow, second, u2.clone());
    let r = book.claim(&p, &addr(DEBATE), &d, &mut escrow, &mut second, &mut u2);
    assert_eq!(r, Err(ErrorCode::InsufficientFunds));
    assert_eq!((book.clone(), escrow, second, u2.clone()), before);
    assert!(!book.get(1).unwrap().settled);
    assert_eq!(escrow.balance, 100);

    escrow.balance += 1_800;
    assert_eq!(book.claim(&p, &addr(DEBATE), &d, &mut escrow, &mut second, &mut u2), Ok(()));
    assert_eq!((second.balance, escrow.balance), (1_900, 0));
}

#[test]
fn settlement_fails_when_claims_have_emptied_escrow() {
    let p = platform(500);
    let (mut d, _) = pending(100);
    start_debate(&p, &addr(AUTHORITY), &mut d, 200).unwrap();
    let mut drained = account(ESCROW, 150);
    let mut payee = account(30, 0);
    let mut treasury = account(TREASURY, 0);
    let r = settle_debate(&p, &addr(AUTHORITY), &mut d, &mut drained, &mut payee, &mut treasury, DebatePosition::Pro, 300);
    assert_eq!(r, Err(ErrorCode::InsufficientFunds));
    assert_eq!((drained.balance, payee.balance, treasury.balance), (150, 0, 0));
    assert_eq!(d.status, DebateStatus::InProgress);
    assert_eq!(d.winner, None);
}

#[test]
fn end_to_end_with_a_stake_of_one_million() {
    let mut p = platform(250);
    let mut pro = account(10, 1_000_000);
    let mut con = account(11, 1_000_000);
    let mut escrow = account(ESCROW, 0);
    let mut d = create_debate(
        &mut p,
        addr(20),
        addr(21),
        &mut pro,
        &mut con,
        &mut escrow,
        String::from("Should robots pay taxes?"),
        1_000_000,
        100,
        7,
    )
    .unwrap();
    let mut book = BetBook::new();
    let mut backer = account(50, 400_000);
    let mut ub = user(50);
    let mut doubter = account(51, 400_000);
    let mut ud = user(51);
    place_bet(&mut book, addr(DEBATE), &d, &mut backer, &mut escrow, &mut ub, DebatePosition::Pro, 400_000, 150, 3).unwrap();
    place_bet(&mut book, addr(DEBATE), &d, &mut doubter, &mut escrow, &mut ud, DebatePosition::Con, 400_000, 151, 3).unwrap();
    assert_eq!(escrow.balance, 2_800_000);

    start_debate(&p, &addr(AUTHORITY), &mut d, 200).unwrap();
    let mut treasury = account(TREASURY, 0);
    settle_debate(&p, &addr(AUTHORITY), &mut d, &mut escrow, &mut pro, &mut treasury, DebatePosition::Pro, 300).unwrap();
    assert_eq!(pro.balance, 1_950_000);
    assert_eq!(treasury.balance, 50_000);
    assert_eq!(escrow.balance, 800_000);

    book.claim(&p, &addr(DEBATE), &d, &mut escrow, &mut backer, &mut ub).unwrap();
    book.claim(&p, &addr(DEBATE), &d, &mut escrow, &mut doubter, &mut ud).unwrap();
    assert_eq!(backer.balance, 780_000);
    assert_eq!(book.lookup(&addr(DEBATE), &addr(50)).unwrap().payout, 780_000);
    assert_eq!(doubter.balance, 0);
    assert_eq!(escrow.balance, 20_000);
    assert_eq!((ub.total_wagered, ub.total_won), (400_000, 780_000));
    assert_eq!((ud.total_wagered, ud.total_won), (400_000, 0));
    assert_eq!(p.total_debates, 1);
    assert_eq!(
        pro.balance + con.balance + treasury.balance + escrow.balance + backer.balance + doubter.balance,
        2_000_000 + 800_000
    );
}

#[test]
fn a_balanced_book_pays_every_claim() {
    let p = platform(250);
    let (mut d, mut escrow) = pending(100);
    let mut book = BetBook::new();
    let stakes = [
        (50u8, DebatePosition::Pro, 300u64),
        (51, DebatePosition::Con, 400),
        (52, DebatePosition::Pro, 700),
        (53, DebatePosition::Con, 600),
    ];
    let mut wallets: Vec<LedgerAccount> = Vec::new();
    let mut users: Vec<User> = Vec::new();
    for (tag, side, amount) in stakes {
        let mut wallet = account(tag, amount);
        let mut u = user(tag);
        place_bet(&mut book, addr(DEBATE), &d, &mut wallet, &mut escrow, &mut u, side, amount, 150, 3).unwrap();
        wallets.push(wallet);
        users.push(u);
    }
    assert_eq!(escrow.balance, 2_200);
    complete(&mut d, &mut escrow, 250, DebatePosition::Pro);
    assert_eq!(escrow.balance, 2_000);

    for i in [2usize, 1, 0, 3] {
        let r = book.claim(&p, &addr(DEBATE), &d, &mut escrow, &mut wallets[i], &mut users[i]);
        assert_eq!(r, Ok(()));
    }
    let paid: Vec<u64> = wallets.iter().map(|w| w.balance).collect();
    assert_eq!(paid, vec![585, 0, 1_365, 0]);
    assert_eq!(escrow.balance, 50);
    for i in 0..4 {
        assert!(book.get(i).unwrap().settled);
        assert_eq!(book.get(i).unwrap().payout, paid[i]);
    }
}

#[test]
fn a_lightly_backed_winner_leaves_what_the_losers_staked() {
    let p = platform(1000);
    let (mut d, mut escrow) = pending(5);
    let mut book = BetBook::new();
    let mut winner = account(50, 500);
    let mut uw = user(50);
    let mut loser = account(51, 1_500);
    let mut ul = user(51);
    place_bet(&mut book, addr(DEBATE), &d, &mut winner, &mut escrow, &mut uw, DebatePosition::Con, 500, 150, 3).unwrap();
    place_bet(&mut book, addr(DEBATE), &d, &mut loser, &mut escrow, &mut ul, DebatePosition::Pro, 1_500, 151, 3).unwrap();
    complete(&mut d, &mut escrow, 1000, DebatePosition::Con);
    assert_eq!(escrow.balance, 2_000);
    assert_eq!(book.claim(&p, &addr(DEBATE), &d, &mut escrow, &mut winner, &mut uw), Ok(()));
    assert_eq!(book.claim(&p, &addr(DEBATE), &d, &mut escrow, &mut loser, &mut ul), Ok(()));
    assert_eq!((winner.balance, loser.balance, escrow.balance), (900, 0, 1_100));
}

#[test]
fn escrow_cannot_bet_or_claim_for_itself() {
    let (mut d, mut escrow) = pending(100);
    let mut copy = account(ESCROW, 200);
    let mut u = user(ESCROW);
    let r = place_bet(&mut BetBook::new(), addr(DEBATE), &d, &mut copy, &mut escrow, &mut u, DebatePosition::Pro, 10, 150, 3);
    assert_eq!(r, Err(ErrorCode::RecordMismatch));
    assert_eq!((copy.balance, escrow.balance, u.total_wagered), (200, 200, 0));

    let p = platform(250);
    escrow.balance += 10_000;
    complete(&mut d, &mut escrow, 250, DebatePosition::Pro);
    let mut b = bet(ESCROW, DebatePosition::Pro, 1_000);
    let mut copy = account(ESCROW, 10_000);
    let r = claim_bet(&p, &addr(DEBATE), &d, &mut b, &mut escrow, &mut copy, &mut u);
    assert_eq!(r, Err(ErrorCode::RecordMismatch));
    assert!(!b.settled);
    assert_eq!((copy.balance, escrow.balance, u.total_won), (10_000, 10_000, 0));
}

#[test]
fn a_second_bet_is_refused_and_moves_nothing() {
    let (d, mut escrow) = pending(100);
    assert_eq!(escrow.balance, 200);
    let mut book = BetBook::new();
    let mut bettor = account(50, 1_000);
    let mut u = user(50);
    let first = place_bet(&mut book, addr(DEBATE), &d, &mut bettor, &mut escrow, &mut u, DebatePosition::Pro, 300, 150, 3);
    assert_eq!(first, Ok(bet(50, DebatePosition::Pro, 300)));
    assert_eq!((escrow.balance, bettor.balance), (500, 700));

    let second = place_bet(&mut book, addr(DEBATE), &d, &mut bettor, &mut escrow, &mut u, DebatePosition::Con, 50, 160, 4);
    assert_eq!(second, Err(ErrorCode::BetAlreadyPlaced));
    assert_eq!((escrow.balance, bettor.balance), (500, 700));
    assert_eq!(u.total_wagered, 300);
    assert_eq!(book.len(), 1);
    assert_eq!(
        book.lookup(&addr(DEBATE), &addr(50)),
        Some(Bet {
            debate: addr(DEBATE),
            bettor: addr(50),
            side: DebatePosition::Pro,
            amount: 300,
            settled: false,
            payout: 0,
            created_at: 150,
            bump: 3,
        })
    );
}

#[test]
fn a_second_bet_is_refused_before_anything_else_is_looked_at() {
    let (mut d, mut escrow) = pending(100);
    let mut book = BetBook::new();
    let mut bettor = account(50, 1_000);
    let mut u = user(50);
    place_bet(&mut book, addr(DEBATE), &d, &mut bettor, &mut escrow, &mut u, DebatePosition::Pro, 300, 150, 3).unwrap();
    let mut stranger = user(51);
    let r = place_bet(&mut book, addr(DEBATE), &d, &mut bettor, &mut escrow, &mut stranger, DebatePosition::Pro, 0, 150, 3);
    assert_eq!(r, Err(ErrorCode::BetAlreadyPlaced));
    start_debate(&platform(250), &addr(AUTHORITY), &mut d, 200).unwrap();
    let r = place_bet(&mut book, addr(DEBATE), &d, &mut bettor, &mut escrow, &mut u, DebatePosition::Pro, 5_000, 250, 3);
    assert_eq!(r, Err(ErrorCode::BetAlreadyPlaced));
    assert_eq!((escrow.balance, bettor.balance, book.len()), (500, 700, 1));
}

#[test]
fn a_bet_placed_on_an_empty_book_is_its_only_bet() {
    let (d, mut escrow) = pending(100);
    let mut book = BetBook::new();
    let mut bettor = account(50, 1_000);
    let mut u = user(50);
    let placed = place_bet(&mut book, addr(DEBATE), &d, &mut bettor, &mut escrow, &mut u, DebatePosition::Con, 7, 150, 3).unwrap();
    assert_eq!(book.len(), 1);
    assert_eq!(book.get(0), Some(placed));
    assert_eq!(book.find(&addr(DEBATE), &addr(50)), Some(0));
}
