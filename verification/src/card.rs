use vstd::prelude::*;

verus! {

/// One of the four suites of a standard deck. A card's suite never affects
/// placement legality; it is carried for identity and display only.
#[derive(Copy, Clone, Debug, PartialEq, Eq, Structural)]
pub enum Suite {
    Clubs,
    Hearts,
    Spades,
    Diamonds,
}

/// One of the thirteen ranks, Ace through King. The ranks form a cycle of
/// thirteen: King is followed by Ace.
#[derive(Copy, Clone, Debug, PartialEq, Eq, Structural)]
pub enum Rank {
    Ace,
    Two,
    Three,
    Four,
    Five,
    Six,
    Seven,
    Eight,
    Nine,
    Ten,
    Jack,
    Queen,
    King,
}

/// A playing card: an immutable (suite, rank) pair, compared by value.
#[derive(Copy, Clone, Debug, PartialEq, Eq, Structural)]
pub struct Card {
    pub suite: Suite,
    pub rank: Rank,
}

impl Card {
    pub fn new(suite: Suite, rank: Rank) -> (c: Card)
        ensures
            c == (Card { suite, rank }),
    {
        Card { suite, rank }
    }
}

/// Position of a rank in the canonical cyclic sequence Ace..King (0..12).
pub open spec fn rank_idx(r: Rank) -> int {
    match r {
        Rank::Ace => 0,
        Rank::Two => 1,
        Rank::Three => 2,
        Rank::Four => 3,
        Rank::Five => 4,
        Rank::Six => 5,
        Rank::Seven => 6,
        Rank::Eight => 7,
        Rank::Nine => 8,
        Rank::Ten => 9,
        Rank::Jack => 10,
        Rank::Queen => 11,
        Rank::King => 12,
    }
}

/// The rank at a given position of the canonical sequence (the inverse of
/// `rank_idx` on 0..12; positions outside that range give King).
pub open spec fn rank_of_idx(i: int) -> Rank {
    if i == 0 {
        Rank::Ace
    } else if i == 1 {
        Rank::Two
    } else if i == 2 {
        Rank::Three
    } else if i == 3 {
        Rank::Four
    } else if i == 4 {
        Rank::Five
    } else if i == 5 {
        Rank::Six
    } else if i == 6 {
        Rank::Seven
    } else if i == 7 {
        Rank::Eight
    } else if i == 8 {
        Rank::Nine
    } else if i == 9 {
        Rank::Ten
    } else if i == 10 {
        Rank::Jack
    } else if i == 11 {
        Rank::Queen
    } else {
        Rank::King
    }
}

/// Position of a suite in the order the standard deck lists suites for each
/// rank (Diamonds, Spades, Clubs, Hearts).
pub open spec fn suite_idx(s: Suite) -> int {
    match s {
        Suite::Diamonds => 0,
        Suite::Spades => 1,
        Suite::Clubs => 2,
        Suite::Hearts => 3,
    }
}

/// The suite at a given position of the standard build order (the inverse of
/// `suite_idx` on 0..3; positions outside that range give Hearts).
pub open spec fn suite_of_idx(i: int) -> Suite {
    if i == 0 {
        Suite::Diamonds
    } else if i == 1 {
        Suite::Spades
    } else if i == 2 {
        Suite::Clubs
    } else {
        Suite::Hearts
    }
}

/// The position one step up the thirteen-rank cycle (12 wraps to 0).
pub open spec fn next_idx(i: int) -> int {
    if i == 12 {
        0
    } else {
        i + 1
    }
}

/// Two ranks are adjacent exactly when they sit one step apart on the
/// thirteen-rank cycle, in either direction.
pub open spec fn adjacent(a: Rank, b: Rank) -> bool {
    next_idx(rank_idx(a)) == rank_idx(b) || next_idx(rank_idx(b)) == rank_idx(a)
}

/// Executable counterpart of `rank_idx`.
pub fn rank_index(r: Rank) -> (i: u8)
    ensures
        i as int == rank_idx(r),
{
    match r {
        Rank::Ace => 0,
        Rank::Two => 1,
        Rank::Three => 2,
        Rank::Four => 3,
        Rank::Five => 4,
        Rank::Six => 5,
        Rank::Seven => 6,
        Rank::Eight => 7,
        Rank::Nine => 8,
        Rank::Ten => 9,
        Rank::Jack => 10,
        Rank::Queen => 11,
        Rank::King => 12,
    }
}

/// Executable counterpart of `rank_of_idx`.
pub fn rank_from_index(i: u8) -> (r: Rank)
    requires
        i < 13,
    ensures
        r == rank_of_idx(i as int),
{
    if i == 0 {
        Rank::Ace
    } else if i == 1 {
        Rank::Two
    } else if i == 2 {
        Rank::Three
    } else if i == 3 {
        Rank::Four
    } else if i == 4 {
        Rank::Five
    } else if i == 5 {
        Rank::Six
    } else if i == 6 {
        Rank::Seven
    } else if i == 7 {
        Rank::Eight
    } else if i == 8 {
        Rank::Nine
    } else if i == 9 {
        Rank::Ten
    } else if i == 10 {
        Rank::Jack
    } else if i == 11 {
        Rank::Queen
    } else {
        Rank::King
    }
}

/// Executable counterpart of `suite_of_idx`.
pub fn suite_from_index(i: u8) -> (s: Suite)
    requires
        i < 4,
    ensures
        s == suite_of_idx(i as int),
{
    if i == 0 {
        Suite::Diamonds
    } else if i == 1 {
        Suite::Spades
    } else if i == 2 {
        Suite::Clubs
    } else {
        Suite::Hearts
    }
}

/// Every rank index lies in 0..12, and `rank_of_idx` undoes `rank_idx`.
pub proof fn lemma_rank_idx_bijective(r: Rank, i: int)
    ensures
        0 <= rank_idx(r) < 13,
        rank_of_idx(rank_idx(r)) == r,
        0 <= i < 13 ==> rank_idx(rank_of_idx(i)) == i,
{
}

/// Every suite index lies in 0..3, and `suite_of_idx` undoes `suite_idx`.
pub proof fn lemma_suite_idx_bijective(s: Suite, i: int)
    ensures
        0 <= suite_idx(s) < 4,
        suite_of_idx(suite_idx(s)) == s,
        0 <= i < 4 ==> suite_idx(suite_of_idx(i)) == i,
{
}

/// Adjacency is exactly distance one modulo 13 on rank indices: a card of
/// rank index (i + 1) mod 13 or (i - 1) mod 13 neighbours a rank of index i,
/// and no other rank does.
pub proof fn lemma_adjacent_mod(a: Rank, b: Rank)
    ensures
        adjacent(a, b) <==> (rank_idx(b) == (rank_idx(a) + 1) % 13 || rank_idx(b) == (rank_idx(a)
            + 12) % 13),
        adjacent(a, b) <==> adjacent(b, a),
{
    lemma_rank_idx_bijective(a, 0);
    lemma_rank_idx_bijective(b, 0);
}

/// The rank cycle wraps at its ends: King accepts Ace as a neighbour and
/// Ace accepts King.
pub proof fn lemma_rank_wraparound()
    ensures
        adjacent(Rank::King, Rank::Ace),
        adjacent(Rank::Ace, Rank::King),
{
}

} // verus!
