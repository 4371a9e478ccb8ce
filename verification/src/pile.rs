use vstd::prelude::*;
use crate::card::{Card, adjacent, rank_idx, rank_index, lemma_rank_idx_bijective};

verus! {

/// Whether `c` may be placed on a pile whose top card is `top`: exactly when
/// the two ranks are adjacent on the thirteen-rank cycle. The suite never
/// matters.
pub open spec fn can_place_spec(top: Card, c: Card) -> bool {
    adjacent(top.rank, c.rank)
}

/// One of the two center piles: its visible top card together with the rank
/// index derived from it.
#[derive(Clone)]
pub struct Pile {
    idx: u8,
    top: Card,
}

impl Pile {
    /// The pile's current top card.
    pub closed spec fn spec_top(&self) -> Card {
        self.top
    }

    /// Well-formed: the stored rank index always matches the top card's
    /// rank. Every constructor establishes this and every method keeps it.
    pub closed spec fn wf(&self) -> bool {
        self.idx as int == rank_idx(self.top.rank)
    }

    /// A pile whose initial top is the given card.
    pub fn new(card: &Card) -> (p: Pile)
        ensures
            p.wf(),
            p.spec_top() == *card,
    {
        Pile { idx: rank_index(card.rank), top: *card }
    }

    /// Unconditionally replace the top card, updating top and rank index
    /// together. Used only for the stalemate forced-burn, which bypasses the
    /// adjacency rule.
    pub fn set_card(&mut self, card: Card)
        ensures
            final(self).wf(),
            final(self).spec_top() == card,
    {
        self.idx = rank_index(card.rank);
        self.top = card;
    }

    /// Whether `card` may be placed: true exactly when its rank index is one
    /// above or one below the pile's index on the cycle of 13.
    pub fn can_place_card(&self, card: Card) -> (r: bool)
        requires
            self.wf(),
        ensures
            r == can_place_spec(self.spec_top(), card),
    {
        proof {
            lemma_rank_idx_bijective(self.top.rank, 0);
            lemma_rank_idx_bijective(card.rank, 0);
        }
        let c = rank_index(card.rank);
        let above = if self.idx == 12 {
            0
        } else {
            self.idx + 1
        };
        let c_above = if c == 12 {
            0
        } else {
            c + 1
        };
        c == above || c_above == self.idx
    }

    /// Try to place `card`. If its rank neighbours the top card's rank, the
    /// pile takes it as the new top and `None` comes back; otherwise the
    /// pile is unchanged and the card is handed back in `Some`.
    pub fn place_card(&mut self, card: Card) -> (r: Option<Card>)
        requires
            old(self).wf(),
        ensures
            final(self).wf(),
            can_place_spec(old(self).spec_top(), card) ==> r is None && final(self).spec_top()
                == card,
            !can_place_spec(old(self).spec_top(), card) ==> r == Some(card)
                && *final(self) == *old(self),
    {
        if self.can_place_card(card) {
            self.set_card(card);
            None
        } else {
            Some(card)
        }
    }

    /// Read the current top card.
    pub fn get_top(&self) -> (c: Card)
        ensures
            c == self.spec_top(),
    {
        self.top
    }
}

/// Try to place the chosen card on the given pile; the pile takes it when
/// the adjacency rule allows, else hands it back unchanged.
pub fn play_card_pile(pile: &mut Pile, chosen_card: Card) -> (r: Option<Card>)
    requires
        old(pile).wf(),
    ensures
        final(pile).wf(),
        can_place_spec(old(pile).spec_top(), chosen_card) ==> r is None && final(pile).spec_top()
            == chosen_card,
        !can_place_spec(old(pile).spec_top(), chosen_card) ==> r == Some(chosen_card)
            && *final(pile) == *old(pile),
{
    pile.place_card(chosen_card)
}

/// Try to place the chosen card on the left pile first, then on the right.
/// `None` when one of the piles took the card; `Some` hands it back when
/// neither could, with both piles unchanged.
pub fn play_card(left_pile: &mut Pile, right_pile: &mut Pile, chosen_card: Card) -> (r: Option<
    Card,
>)
    requires
        old(left_pile).wf(),
        old(right_pile).wf(),
    ensures
        final(left_pile).wf(),
        final(right_pile).wf(),
        can_place_spec(old(left_pile).spec_top(), chosen_card) ==> r is None
            && final(left_pile).spec_top() == chosen_card
            && *final(right_pile) == *old(right_pile),
        !can_place_spec(old(left_pile).spec_top(), chosen_card) && can_place_spec(
            old(right_pile).spec_top(),
            chosen_card,
        ) ==> r is None && *final(left_pile) == *old(left_pile) && final(right_pile).spec_top()
            == chosen_card,
        !can_place_spec(old(left_pile).spec_top(), chosen_card) && !can_place_spec(
            old(right_pile).spec_top(),
            chosen_card,
        ) ==> r == Some(chosen_card) && *final(left_pile) == *old(left_pile) && *final(right_pile)
            == *old(right_pile),
{
    match left_pile.place_card(chosen_card) {
        None => None,
        Some(card) => right_pile.place_card(card),
    }
}

} // verus!
