//! The book of bets: every bet that was placed, found again by debate and
//! bettor. The book never holds two bets of one bettor on one debate.

use vstd::prelude::*;
use crate::address::Address;
use crate::bet::Bet;

verus! {

/// Whether some bet in `bets` is on the debate at `debate_key` by `bettor`.
pub open spec fn holds(bets: Seq<Bet>, debate_key: Address, bettor: Address) -> bool {
    exists|i: int| 0 <= i < bets.len() && (#[trigger] bets[i]).is_keyed(debate_key, bettor)
}

/// Whether `bets[i]` is the first bet on the debate at `debate_key` by
/// `bettor`.
pub open spec fn first_match(bets: Seq<Bet>, i: int, debate_key: Address, bettor: Address) -> bool {
    &&& 0 <= i < bets.len()
    &&& bets[i].is_keyed(debate_key, bettor)
    &&& forall|j: int| 0 <= j < i ==> !(#[trigger] bets[j]).is_keyed(debate_key, bettor)
}

/// Where in `bets` the bet on the debate at `debate_key` by `bettor`
/// stands, if `bets` holds one.
pub open spec fn position(bets: Seq<Bet>, debate_key: Address, bettor: Address) -> int {
    choose|i: int| first_match(bets, i, debate_key, bettor)
}

/// Whether no two bets in `bets` are on the same debate by the same bettor.
pub open spec fn unique_keys(bets: Seq<Bet>) -> bool {
    forall|i: int, j: int|
        0 <= i < j < bets.len() ==> !(#[trigger] bets[i]).is_keyed(
            (#[trigger] bets[j]).debate,
            bets[j].bettor,
        )
}

/// The bets in `bets` that are on the debate at `debate_key`, in the order
/// in which they were placed.
pub open spec fn bets_on_debate(bets: Seq<Bet>, debate_key: Address) -> Seq<Bet> {
    bets.filter(|bet: Bet| bet.debate == debate_key)
}

/// A first match is the position, and shows that the bet is held.
pub proof fn lemma_first_match_is_position(
    bets: Seq<Bet>,
    i: int,
    debate_key: Address,
    bettor: Address,
)
    requires
        first_match(bets, i, debate_key, bettor),
    ensures
        holds(bets, debate_key, bettor),
        position(bets, debate_key, bettor) == i,
{
    let p = position(bets, debate_key, bettor);
    assert(first_match(bets, p, debate_key, bettor));
    if p < i {
        assert(bets[p].is_keyed(debate_key, bettor));
    } else if i < p {
        assert(bets[i].is_keyed(debate_key, bettor));
    }
}

/// Every bet that was placed.
#[derive(Debug, PartialEq, Eq)]
pub struct BetBook {
    bets: Vec<Bet>,
}

impl View for BetBook {
    type V = Seq<Bet>;

    closed spec fn view(&self) -> Seq<Bet> {
        self.bets@
    }
}

impl Clone for BetBook {
    fn clone(&self) -> (book: BetBook)
        ensures
            book@ == self@,
    {
        proof {
            use_type_invariant(self);
        }
        let mut bets: Vec<Bet> = Vec::new();
        let mut i: usize = 0;
        while i < self.bets.len()
            invariant
                0 <= i <= self.bets@.len(),
                bets@ == self.bets@.take(i as int),
            decreases self.bets@.len() - i,
        {
            bets.push(self.bets[i]);
            i = i + 1;
        }
        assert(bets@ == self.bets@);
        BetBook { bets }
    }
}

impl BetBook {
    #[verifier::type_invariant]
    spec fn one_bet_per_bettor(self) -> bool {
        unique_keys(self.bets@)
    }

    /// A book without bets.
    pub fn new() -> (book: BetBook)
        ensures
            book@ == Seq::<Bet>::empty(),
    {
        BetBook { bets: Vec::new() }
    }

    /// The number of bets in the book, no two of which are bets of one
    /// bettor on one debate.
    pub fn len(&self) -> (n: usize)
        ensures
            n == self@.len(),
            unique_keys(self@),
    {
        proof {
            use_type_invariant(self);
        }
        self.bets.len()
    }

    /// The bet at index `i`, in the order of placing.
    pub fn get(&self, i: usize) -> (r: Option<Bet>)
        ensures
            i < self@.len() ==> r == Some(self@[i as int]),
            i >= self@.len() ==> r is None,
    {
        if i < self.bets.len() {
            Some(self.bets[i])
        } else {
            None
        }
    }

    /// Where the bet on the debate at `debate_key` by `bettor` stands. The
    /// book holds no second bet under that key.
    pub fn find(&self, debate_key: &Address, bettor: &Address) -> (r: Option<usize>)
        ensures
            holds(self@, *debate_key, *bettor) ==> r == Some(
                position(self@, *debate_key, *bettor) as usize,
            ),
            !holds(self@, *debate_key, *bettor) ==> r is None,
            r matches Some(i) ==> first_match(self@, i as int, *debate_key, *bettor),
            unique_keys(self@),
    {
        proof {
            use_type_invariant(self);
        }
        let mut i: usize = 0;
        while i < self.bets.len()
            invariant
                0 <= i <= self.bets@.len(),
                unique_keys(self.bets@),
                forall|j: int|
                    0 <= j < i ==> !(#[trigger] self.bets@[j]).is_keyed(*debate_key, *bettor),
            decreases self.bets@.len() - i,
        {
            if self.bets[i].debate.same(debate_key) && self.bets[i].bettor.same(bettor) {
                proof {
                    lemma_first_match_is_position(self.bets@, i as int, *debate_key, *bettor);
                }
                return Some(i);
            }
            i = i + 1;
        }
        None
    }

    /// The bet on the debate at `debate_key` by `bettor`.
    pub fn lookup(&self, debate_key: &Address, bettor: &Address) -> (r: Option<Bet>)
        ensures
            holds(self@, *debate_key, *bettor) ==> r == Some(
                self@[position(self@, *debate_key, *bettor)],
            ),
            !holds(self@, *debate_key, *bettor) ==> r is None,
            r matches Some(bet) ==> bet.is_keyed(*debate_key, *bettor),
    {
        match self.find(debate_key, bettor) {
            Some(i) => Some(self.bets[i]),
            None => None,
        }
    }

    /// The bets on the debate at `debate_key`, in the order of placing.
    pub fn bets_on(&self, debate_key: &Address) -> (r: Vec<Bet>)
        ensures
            r@ == bets_on_debate(self@, *debate_key),
    {
        let ghost pred = |bet: Bet| bet.debate == *debate_key;
        let mut found: Vec<Bet> = Vec::new();
        let mut i: usize = 0;
        proof {
            reveal(Seq::filter);
            assert(self.bets@.take(0) =~= Seq::<Bet>::empty());
        }
        while i < self.bets.len()
            invariant
                0 <= i <= self.bets@.len(),
                pred == |bet: Bet| bet.debate == *debate_key,
                found@ == self.bets@.take(i as int).filter(pred),
            decreases self.bets@.len() - i,
        {
            proof {
                reveal(Seq::filter);
                assert(self.bets@.take(i + 1).drop_last() =~= self.bets@.take(i as int));
            }
            if self.bets[i].debate.same(debate_key) {
                found.push(self.bets[i]);
            }
            i = i + 1;
        }
        proof {
            assert(self.bets@.take(i as int) =~= self.bets@);
        }
        found
    }

    /// Enters a bet under a key that the book does not hold yet.
    pub(crate) fn enter(&mut self, bet: Bet)
        requires
            !holds(old(self)@, bet.debate, bet.bettor),
        ensures
            final(self)@ == old(self)@.push(bet),
            unique_keys(final(self)@),
    {
        proof {
            use_type_invariant(&*self);
        }
        let mut bets: Vec<Bet> = Vec::new();
        std::mem::swap(&mut bets, &mut self.bets);
        bets.push(bet);
        self.bets = bets;
    }

    /// Puts `bet` in the place of the bet at index `at`, which has the same
    /// debate and bettor.
    pub(crate) fn replace(&mut self, at: usize, bet: Bet)
        requires
            at < old(self)@.len(),
            bet.is_keyed(old(self)@[at as int].debate, old(self)@[at as int].bettor),
        ensures
            final(self)@ == old(self)@.update(at as int, bet),
            unique_keys(final(self)@),
    {
        proof {
            use_type_invariant(&*self);
        }
        let mut bets: Vec<Bet> = Vec::new();
        std::mem::swap(&mut bets, &mut self.bets);
        bets[at] = bet;
        self.bets = bets;
    }
}

/// A bet that is held has a first occurrence, and that is its position.
pub proof fn lemma_held_has_position(bets: Seq<Bet>, debate_key: Address, bettor: Address)
    requires
        holds(bets, debate_key, bettor),
    ensures
        first_match(bets, position(bets, debate_key, bettor), debate_key, bettor),
{
    let some = choose|i: int| 0 <= i < bets.len() && (#[trigger] bets[i]).is_keyed(debate_key, bettor);
    lemma_first_match_before(bets, some, debate_key, bettor);
}

/// Before or at any occurrence of a key stands its first occurrence.
proof fn lemma_first_match_before(bets: Seq<Bet>, i: int, debate_key: Address, bettor: Address)
    requires
        0 <= i < bets.len(),
        bets[i].is_keyed(debate_key, bettor),
    ensures
        exists|k: int| first_match(bets, k, debate_key, bettor),
    decreases i,
{
    if exists|j: int| 0 <= j < i && (#[trigger] bets[j]).is_keyed(debate_key, bettor) {
        let j = choose|j: int| 0 <= j < i && (#[trigger] bets[j]).is_keyed(debate_key, bettor);
        lemma_first_match_before(bets, j, debate_key, bettor);
    } else {
        assert(first_match(bets, i, debate_key, bettor));
    }
}

} // verus!
