use higher_or_lower::card::{Card, Rank, Suit};
use higher_or_lower::deck::{Deck, DeckError, FULL_DECK_SIZE};

#[test]
fn full_deck_has_every_card_once() {
    let deck = Deck::new_full_deck();
    assert_eq!(deck.len(), FULL_DECK_SIZE);
    assert!(!deck.is_empty());
    let cards = deck.to_vec();
    assert_eq!(cards.len(), 52);
    for i in 0..cards.len() {
        for j in (i + 1)..cards.len() {
            assert_ne!(cards[i], cards[j]);
        }
    }
    for r in 0u8..13 {
        for s in 0u8..4 {
            let c = Card { rank: Rank::from_position(r), suit: Suit::from_position(s) };
            assert!(cards.contains(&c));
            assert!(deck.index_of(&c).is_some());
        }
    }
}

#[test]
fn draw_at_swaps_in_the_last_card() {
    let mut deck = Deck::new_full_deck();
    let before = deck.to_vec();
    let c = deck.draw_at(3);
    assert_eq!(c, before[3]);
    let after = deck.to_vec();
    assert_eq!(after.len(), 51);
    assert_eq!(after[3], before[51]);
    assert_eq!(&after[..3], &before[..3]);
    assert_eq!(&after[4..], &before[4..51]);
    assert!(deck.index_of(&c).is_none());
}

#[test]
fn draw_random_shrinks_deck_and_never_repeats() {
    let mut deck = Deck::new_full_deck();
    let mut drawn: Vec<Card> = Vec::new();
    for n in (1..=52usize).rev() {
        assert_eq!(deck.len(), n);
        let before = deck.to_vec();
        let c = deck.draw_random().unwrap();
        assert!(before.contains(&c));
        assert_eq!(deck.len(), n - 1);
        assert!(deck.index_of(&c).is_none());
        assert!(!drawn.contains(&c));
        drawn.push(c);
    }
    assert_eq!(drawn.len(), 52);
    assert!(deck.is_empty());
}

#[test]
fn draw_from_empty_deck_fails() {
    let mut deck = Deck::new_full_deck();
    for _ in 0..52 {
        deck.draw_at(0);
    }
    assert_eq!(deck.draw_random(), Err(DeckError::EmptyDeck));
    assert_eq!(deck.len(), 0);
}

#[test]
fn random_index_stays_in_range() {
    let mut deck = Deck::new_full_deck();
    for _ in 0..100 {
        assert!(deck.random_index() < 52);
    }
    for _ in 0..51 {
        deck.draw_at(0);
    }
    assert_eq!(deck.random_index(), 0);
}
