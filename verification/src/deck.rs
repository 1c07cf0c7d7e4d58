use vstd::prelude::*;

verus! {

/// An ordered pile of cards: cards enter and leave at the top (the end
/// of the sequence), or leave from an arbitrary position when drafting.
#[derive(Debug, Clone)]
pub struct Deck<Card> {
    pub cards: Vec<Card>,
}

impl<Card> View for Deck<Card> {
    type V = Seq<Card>;

    open spec fn view(&self) -> Seq<Card> {
        self.cards@
    }
}

impl<Card> Deck<Card> {
    /// An empty deck.
    pub fn new() -> (r: Self)
        ensures
            r@ == Seq::<Card>::empty(),
    {
        Self { cards: Vec::new() }
    }

    /// A deck holding the given cards, bottom first, in their order.
    pub fn from(cards: Vec<Card>) -> (r: Self)
        ensures
            r@ == cards@,
    {
        Self { cards }
    }

    /// Whether the deck holds no card.
    pub fn is_empty(&self) -> (r: bool)
        ensures
            r == (self@.len() == 0),
    {
        self.cards.is_empty()
    }

    /// How many cards the deck holds.
    pub fn len(&self) -> (r: usize)
        ensures
            r == self@.len(),
    {
        self.cards.len()
    }

    /// Permutes the deck uniformly at random, in place: afterwards it
    /// holds the same cards, with the same multiplicities.
    pub fn shuffle(&mut self)
        ensures
            final(self)@.len() == old(self)@.len(),
            final(self)@.to_multiset() == old(self)@.to_multiset(),
    {
        crate::rng::shuffle_cards(&mut self.cards);
    }

    /// Places a card on top of the deck.
    pub fn place(&mut self, card: Card)
        ensures
            final(self)@ == old(self)@.push(card),
    {
        self.cards.push(card);
    }

    /// Removes and returns the top card; reports emptiness explicitly,
    /// never a fabricated card.
    pub fn draw(&mut self) -> (r: Option<Card>)
        ensures
            old(self)@.len() == 0 ==> r is None && final(self)@ == old(self)@,
            old(self)@.len() > 0 ==> r == Some(old(self)@.last()) && final(self)@ == old(
                self,
            )@.drop_last(),
    {
        self.cards.pop()
    }

    /// Removes and returns the card at the given position, shifting the
    /// cards above it down by one; an out-of-range position (in
    /// particular, any position on an empty deck) is reported as `None`.
    pub fn draw_from(&mut self, index: usize) -> (r: Option<Card>)
        ensures
            index < old(self)@.len() ==> r == Some(old(self)@[index as int]) && final(self)@ == old(
                self,
            )@.remove(index as int),
            index >= old(self)@.len() ==> r is None && final(self)@ == old(self)@,
    {
        if index < self.cards.len() {
            Some(self.cards.remove(index))
        } else {
            None
        }
    }

    /// Discards every card beyond the first `len`, irreversibly; a `len`
    /// no smaller than the deck leaves it unchanged.
    pub fn truncate(&mut self, len: usize)
        ensures
            len <= old(self)@.len() ==> final(self)@ == old(self)@.take(len as int),
            len > old(self)@.len() ==> final(self)@ == old(self)@,
    {
        self.cards.truncate(len);
    }
}

} // verus!
