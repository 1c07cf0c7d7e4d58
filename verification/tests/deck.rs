use bears::deck::Deck;

#[test]
fn deck_new_is_empty() {
    let deck: Deck<i32> = Deck::new();
    assert!(deck.is_empty());
    assert_eq!(deck.len(), 0);
}

#[test]
fn deck_place_grows_and_draw_is_lifo() {
    let mut deck: Deck<i32> = Deck::new();
    deck.place(1);
    deck.place(2);
    deck.place(3);
    assert_eq!(deck.len(), 3);
    assert!(!deck.is_empty());
    assert_eq!(deck.draw(), Some(3));
    assert_eq!(deck.draw(), Some(2));
    assert_eq!(deck.draw(), Some(1));
    assert_eq!(deck.draw(), None);
    assert!(deck.is_empty());
}

#[test]
fn deck_from_preserves_order() {
    let deck = Deck::from(vec![10, 20, 30]);
    assert_eq!(deck.len(), 3);
    assert_eq!(deck.cards, vec![10, 20, 30]);
}

#[test]
fn deck_draw_from_removes_at_index_and_shifts() {
    let mut deck = Deck::from(vec![10, 20, 30]);
    assert_eq!(deck.draw_from(1), Some(20));
    assert_eq!(deck.cards, vec![10, 30]);
    assert_eq!(deck.draw_from(0), Some(10));
    assert_eq!(deck.cards, vec![30]);
}

#[test]
fn deck_draw_from_reports_out_of_range() {
    let mut empty: Deck<i32> = Deck::new();
    assert_eq!(empty.draw_from(0), None);
    let mut deck = Deck::from(vec![10, 20]);
    assert_eq!(deck.draw_from(5), None);
    assert_eq!(deck.len(), 2);
}

#[test]
fn deck_truncate_discards_beyond_len() {
    let mut deck = Deck::from(vec![1, 2, 3, 4, 5]);
    deck.truncate(2);
    assert_eq!(deck.cards, vec![1, 2]);
    deck.truncate(10);
    assert_eq!(deck.cards, vec![1, 2]);
    deck.truncate(0);
    assert!(deck.is_empty());
}

#[test]
fn deck_shuffle_keeps_the_same_cards() {
    let mut deck = Deck::from(vec![5, 1, 4, 2, 3]);
    deck.shuffle();
    assert_eq!(deck.len(), 5);
    let mut cards = deck.cards.clone();
    cards.sort();
    assert_eq!(cards, vec![1, 2, 3, 4, 5]);
}
