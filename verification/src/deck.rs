use vstd::prelude::*;
use crate::card::{Card, Rank, Suite};
use crate::card::{rank_of_idx, suite_of_idx, rank_idx, suite_idx};
use crate::card::{rank_from_index, suite_from_index};
use crate::card::{lemma_rank_idx_bijective, lemma_suite_idx_bijective};
use vstd::arithmetic::div_mod::lemma_fundamental_div_mod_converse;
use rand::seq::SliceRandom;

verus! {

/// The card at position `i` of the standard 52-card deck in build order:
/// ranks ascend from Ace, with the four suites listed for each rank.
pub open spec fn standard_card(i: int) -> Card {
    Card { suite: suite_of_idx(i % 4), rank: rank_of_idx(i / 4) }
}

/// The standard 52-card deck in build order.
pub open spec fn standard_deck() -> Seq<Card> {
    Seq::new(52, |i: int| standard_card(i))
}

/// The sequence `s` with every occurrence of `c` removed, order kept.
pub open spec fn remove_all(s: Seq<Card>, c: Card) -> Seq<Card>
    decreases s.len(),
{
    if s.len() == 0 {
        Seq::empty()
    } else if s.last() == c {
        remove_all(s.drop_last(), c)
    } else {
        remove_all(s.drop_last(), c).push(s.last())
    }
}

/// An ordered collection of cards used as a stack: the last element is the
/// top, and cards are dealt from the end.
#[derive(Clone)]
pub struct Deck {
    cards: Vec<Card>,
}

impl View for Deck {
    type V = Seq<Card>;

    closed spec fn view(&self) -> Seq<Card> {
        self.cards@
    }
}

/// Relies on rand 0.8's `SliceRandom::shuffle` with `rand::thread_rng`: an
/// in-place Fisher-Yates pass that only swaps elements of the slice, so the
/// elements are reordered but none is added, dropped or changed.
#[verifier::external_body]
fn shuffle_vec(cards: &mut Vec<Card>)
    ensures
        final(cards)@.to_multiset() == old(cards)@.to_multiset(),
        final(cards)@.len() == old(cards)@.len(),
{
    let mut rng = rand::thread_rng();
    cards.shuffle(&mut rng);
}

impl Deck {
    /// An empty deck.
    pub fn new() -> (d: Deck)
        ensures
            d@ == Seq::<Card>::empty(),
    {
        Deck { cards: Vec::new() }
    }

    /// Fill an empty deck with the standard 52 cards; on a non-empty deck
    /// this is a no-op, so a deck is never filled twice.
    pub fn init(&mut self)
        ensures
            old(self)@.len() == 0 ==> final(self)@ == standard_deck(),
            old(self)@.len() != 0 ==> final(self)@ == old(self)@,
    {
        if self.cards.len() == 0 {
            let mut i: usize = 0;
            while i < 52
                invariant
                    i <= 52,
                    self.cards@ == standard_deck().take(i as int),
                decreases 52 - i,
            {
                let rank = rank_from_index((i / 4) as u8);
                let suite = suite_from_index((i % 4) as u8);
                self.cards.push(Card { suite, rank });
                proof {
                    assert(self.cards@ =~= standard_deck().take(i + 1));
                }
                i = i + 1;
            }
            proof {
                assert(standard_deck().take(52) =~= standard_deck());
            }
        }
    }

    /// Randomly reorder the deck. The result is some permutation of the old
    /// contents: the multiset of cards is preserved for any size.
    pub fn shuffle(&mut self)
        ensures
            final(self)@.to_multiset() == old(self)@.to_multiset(),
            final(self)@.len() == old(self)@.len(),
    {
        shuffle_vec(&mut self.cards);
    }

    /// Remove and return the top card; `None` exactly when the deck is empty.
    pub fn deal_one(&mut self) -> (r: Option<Card>)
        ensures
            old(self)@.len() == 0 ==> r is None && final(self)@ == old(self)@,
            old(self)@.len() > 0 ==> r == Some(old(self)@.last()) && final(self)@ == old(
                self,
            )@.drop_last(),
    {
        self.cards.pop()
    }

    /// Remove the top `num_of_cards` cards and return them as a new deck, in
    /// the order they were dealt (top first). Succeeds exactly when the deck
    /// holds at least that many cards; otherwise the deck is left unchanged.
    pub fn deal_hand(&mut self, num_of_cards: usize) -> (r: Option<Deck>)
        ensures
            num_of_cards > old(self)@.len() ==> r is None && final(self)@ == old(self)@,
            num_of_cards <= old(self)@.len() ==> ({
                &&& r matches Some(hand)
                &&& hand@.len() == num_of_cards
                &&& forall|k: int|
                    0 <= k < num_of_cards ==> hand@[k] == old(self)@[old(self)@.len() - 1 - k]
                &&& final(self)@ == old(self)@.take(old(self)@.len() - num_of_cards)
            }),
    {
        if num_of_cards > self.cards.len() {
            return None;
        }
        let ghost orig = self.cards@;
        let mut hand: Vec<Card> = Vec::new();
        let mut k: usize = 0;
        while k < num_of_cards
            invariant
                k <= num_of_cards,
                num_of_cards <= orig.len(),
                self.cards@ == orig.take(orig.len() - k),
                hand@.len() == k,
                forall|j: int| 0 <= j < k ==> hand@[j] == orig[orig.len() - 1 - j],
            decreases num_of_cards - k,
        {
            let c = self.cards.pop().unwrap();
            assert(c == orig[orig.len() - 1 - k]);
            hand.push(c);
            k = k + 1;
            proof {
                assert(self.cards@ =~= orig.take(orig.len() - k));
            }
        }
        Some(Deck { cards: hand })
    }

    /// Remove every card equal to `to_remove`; removing a card that is not
    /// present is a no-op.
    pub fn remove_card(&mut self, to_remove: &Card)
        ensures
            final(self)@ == remove_all(old(self)@, *to_remove),
    {
        let mut kept: Vec<Card> = Vec::new();
        let mut i: usize = 0;
        while i < self.cards.len()
            invariant
                i <= self.cards@.len(),
                kept@ == remove_all(self.cards@.take(i as int), *to_remove),
            decreases self.cards@.len() - i,
        {
            let c = self.cards[i];
            proof {
                assert(self.cards@.take(i + 1).drop_last() =~= self.cards@.take(i as int));
                assert(self.cards@.take(i + 1).last() == c);
            }
            if !(c == *to_remove) {
                kept.push(c);
            }
            i = i + 1;
        }
        proof {
            assert(self.cards@.take(self.cards@.len() as int) =~= self.cards@);
        }
        self.cards = kept;
    }

    /// Push a card on top of the deck.
    pub fn add_card(&mut self, to_add: Card)
        ensures
            final(self)@ == old(self)@.push(to_add),
    {
        self.cards.push(to_add);
    }

    /// The number of cards currently held.
    pub fn len(&self) -> (n: usize)
        ensures
            n == self@.len(),
    {
        self.cards.len()
    }

    /// Deal out the whole deck, top first, leaving it empty.
    pub fn deal_rest(&mut self) -> (r: Option<Deck>)
        ensures
            r matches Some(hand) && hand@.len() == old(self)@.len() && final(self)@.len() == 0
                && forall|k: int|
                0 <= k < old(self)@.len() ==> hand@[k] == old(self)@[old(self)@.len() - 1 - k],
    {
        let n = self.cards.len();
        let r = self.deal_hand(n);
        proof {
            assert(old(self)@.take(0) =~= final(self)@);
        }
        r
    }

    /// A copy of the cards in deck order (bottom first).
    pub fn get_cards(&self) -> (r: Vec<Card>)
        ensures
            r@ == self@,
    {
        let mut r: Vec<Card> = Vec::new();
        let mut i: usize = 0;
        while i < self.cards.len()
            invariant
                i <= self.cards@.len(),
                r@ == self.cards@.take(i as int),
            decreases self.cards@.len() - i,
        {
            r.push(self.cards[i]);
            proof {
                assert(r@ =~= self.cards@.take(i + 1));
            }
            i = i + 1;
        }
        proof {
            assert(self.cards@.take(self.cards@.len() as int) =~= self.cards@);
        }
        r
    }
}

/// The standard deck holds exactly 52 cards: one for every combination of
/// the 13 ranks and 4 suites, with no card repeated.
pub proof fn lemma_standard_deck()
    ensures
        standard_deck().len() == 52,
        forall|i: int, j: int| 0 <= i < j < 52 ==> standard_deck()[i] != standard_deck()[j],
        forall|c: Card| standard_deck().contains(c),
{
    assert forall|i: int, j: int| 0 <= i < j < 52 implies standard_deck()[i]
        != standard_deck()[j] by {
        if standard_card(i) == standard_card(j) {
            lemma_rank_idx_bijective(Rank::Ace, i / 4);
            lemma_rank_idx_bijective(Rank::Ace, j / 4);
            lemma_suite_idx_bijective(Suite::Clubs, i % 4);
            lemma_suite_idx_bijective(Suite::Clubs, j % 4);
            assert(i / 4 == j / 4 && i % 4 == j % 4);
            lemma_fundamental_div_mod_converse(i, 4, i / 4, i % 4);
            lemma_fundamental_div_mod_converse(j, 4, j / 4, j % 4);
            assert(i == j);
            assert(false);
        }
    }
    assert forall|c: Card| standard_deck().contains(c) by {
        lemma_rank_idx_bijective(c.rank, 0);
        lemma_suite_idx_bijective(c.suite, 0);
        let w = 4 * rank_idx(c.rank) + suite_idx(c.suite);
        lemma_fundamental_div_mod_converse(w, 4, rank_idx(c.rank), suite_idx(c.suite));
        assert(standard_deck()[w] == c);
    }
}

} // verus!
