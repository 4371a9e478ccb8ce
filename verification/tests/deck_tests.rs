use speed::card::{Card, Rank, Suite};
use speed::deck::Deck;

const ALL_SUITES: [Suite; 4] = [Suite::Clubs, Suite::Hearts, Suite::Spades, Suite::Diamonds];
const ALL_RANKS: [Rank; 13] = [
    Rank::Ace,
    Rank::Two,
    Rank::Three,
    Rank::Four,
    Rank::Five,
    Rank::Six,
    Rank::Seven,
    Rank::Eight,
    Rank::Nine,
    Rank::Ten,
    Rank::Jack,
    Rank::Queen,
    Rank::King,
];

fn count_card(cards: &[Card], c: Card) -> usize {
    cards.iter().filter(|x| **x == c).count()
}

#[test]
fn build_standard_has_52_unique_cards() {
    let mut d = Deck::new();
    d.init();
    assert_eq!(d.len(), 52);
    let cards = d.get_cards();
    for i in 0..cards.len() {
        for j in (i + 1)..cards.len() {
            assert_ne!(cards[i], cards[j]);
        }
    }
    for s in ALL_SUITES {
        for r in ALL_RANKS {
            assert_eq!(count_card(&cards, Card::new(s, r)), 1);
        }
    }
}

#[test]
fn init_on_nonempty_deck_is_a_noop() {
    let mut d = Deck::new();
    d.add_card(Card::new(Suite::Hearts, Rank::Seven));
    d.init();
    assert_eq!(d.len(), 1);
    assert_eq!(d.get_cards()[0], Card::new(Suite::Hearts, Rank::Seven));
}

#[test]
fn shuffle_preserves_the_multiset_of_cards() {
    let mut d = Deck::new();
    d.init();
    let before = d.get_cards();
    d.shuffle();
    let after = d.get_cards();
    assert_eq!(after.len(), before.len());
    for c in &before {
        assert_eq!(count_card(&after, *c), count_card(&before, *c));
    }
}

#[test]
fn shuffle_preserves_small_decks_too() {
    let mut empty = Deck::new();
    empty.shuffle();
    assert_eq!(empty.len(), 0);

    let mut one = Deck::new();
    one.add_card(Card::new(Suite::Spades, Rank::Two));
    one.shuffle();
    assert_eq!(one.get_cards(), vec![Card::new(Suite::Spades, Rank::Two)]);
}

#[test]
fn shuffle_changes_the_order_of_a_full_deck() {
    let mut d = Deck::new();
    d.init();
    let before = d.get_cards();
    d.shuffle();
    let after = d.get_cards();
    // The identity permutation has probability 1/52!, far below any
    // realistic flakiness threshold.
    assert_ne!(before, after);
}

#[test]
fn deal_one_pops_the_top_and_signals_empty() {
    let mut d = Deck::new();
    d.add_card(Card::new(Suite::Clubs, Rank::Three));
    d.add_card(Card::new(Suite::Hearts, Rank::Four));
    assert_eq!(d.deal_one(), Some(Card::new(Suite::Hearts, Rank::Four)));
    assert_eq!(d.deal_one(), Some(Card::new(Suite::Clubs, Rank::Three)));
    assert_eq!(d.deal_one(), None);
    assert_eq!(d.len(), 0);
}

#[test]
fn deal_hand_succeeds_iff_enough_cards() {
    let mut d = Deck::new();
    let cards = [
        Card::new(Suite::Clubs, Rank::Ace),
        Card::new(Suite::Hearts, Rank::Two),
        Card::new(Suite::Spades, Rank::Three),
        Card::new(Suite::Diamonds, Rank::Four),
        Card::new(Suite::Clubs, Rank::Five),
    ];
    for c in cards {
        d.add_card(c);
    }
    // Too many: failure signalled, deck unchanged.
    assert!(d.deal_hand(6).is_none());
    assert_eq!(d.len(), 5);
    assert_eq!(d.get_cards(), cards.to_vec());
    // n <= k: n cards come back, top first; k - n stay.
    let hand = d.deal_hand(3).expect("three of five");
    assert_eq!(
        hand.get_cards(),
        vec![
            Card::new(Suite::Clubs, Rank::Five),
            Card::new(Suite::Diamonds, Rank::Four),
            Card::new(Suite::Spades, Rank::Three),
        ]
    );
    assert_eq!(d.len(), 2);
    assert_eq!(
        d.get_cards(),
        vec![Card::new(Suite::Clubs, Rank::Ace), Card::new(Suite::Hearts, Rank::Two)]
    );
}

#[test]
fn deal_hand_of_exact_size_empties_the_deck() {
    let mut d = Deck::new();
    d.add_card(Card::new(Suite::Clubs, Rank::Nine));
    d.add_card(Card::new(Suite::Clubs, Rank::Ten));
    let hand = d.deal_hand(2).expect("whole deck");
    assert_eq!(hand.len(), 2);
    assert_eq!(d.len(), 0);
}

#[test]
fn deal_rest_deals_everything_top_first() {
    let mut d = Deck::new();
    d.add_card(Card::new(Suite::Hearts, Rank::Six));
    d.add_card(Card::new(Suite::Spades, Rank::Seven));
    d.add_card(Card::new(Suite::Clubs, Rank::Eight));
    let rest = d.deal_rest().expect("deal_rest always succeeds");
    assert_eq!(d.len(), 0);
    assert_eq!(
        rest.get_cards(),
        vec![
            Card::new(Suite::Clubs, Rank::Eight),
            Card::new(Suite::Spades, Rank::Seven),
            Card::new(Suite::Hearts, Rank::Six),
        ]
    );
}

#[test]
fn remove_card_removes_all_copies_and_ignores_absent_cards() {
    let mut d = Deck::new();
    let dup = Card::new(Suite::Hearts, Rank::Queen);
    d.add_card(dup);
    d.add_card(Card::new(Suite::Clubs, Rank::Two));
    d.add_card(dup);
    d.remove_card(&dup);
    assert_eq!(d.get_cards(), vec![Card::new(Suite::Clubs, Rank::Two)]);
    // Removing a card that is not present is a no-op.
    d.remove_card(&Card::new(Suite::Spades, Rank::King));
    assert_eq!(d.get_cards(), vec![Card::new(Suite::Clubs, Rank::Two)]);
}
