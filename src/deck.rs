use vstd::prelude::*;
use rand::seq::SliceRandom;
use crate::card::{Card, Rank, Suit};

verus! {

broadcast use vstd::seq_lib::group_to_multiset_ensures;

/// Number of cards in a standard deck.
pub const DECK_SIZE: usize = 52;

/// Suits in canonical order.
pub open spec fn suit_at(i: int) -> Suit {
    if i == 0 { Suit::Hearts }
    else if i == 1 { Suit::Diamonds }
    else if i == 2 { Suit::Clubs }
    else { Suit::Spades }
}

/// Ranks in canonical order, from two up to the ace.
pub open spec fn rank_at(i: int) -> Rank {
    if i == 0 { Rank::Two }
    else if i == 1 { Rank::Three }
    else if i == 2 { Rank::Four }
    else if i == 3 { Rank::Five }
    else if i == 4 { Rank::Six }
    else if i == 5 { Rank::Seven }
    else if i == 6 { Rank::Eight }
    else if i == 7 { Rank::Nine }
    else if i == 8 { Rank::Ten }
    else if i == 9 { Rank::Jack }
    else if i == 10 { Rank::Queen }
    else if i == 11 { Rank::King }
    else { Rank::Ace }
}

pub open spec fn suit_index(s: Suit) -> int {
    match s {
        Suit::Hearts => 0,
        Suit::Diamonds => 1,
        Suit::Clubs => 2,
        Suit::Spades => 3,
    }
}

pub open spec fn rank_index(r: Rank) -> int {
    match r {
        Rank::Two => 0,
        Rank::Three => 1,
        Rank::Four => 2,
        Rank::Five => 3,
        Rank::Six => 4,
        Rank::Seven => 5,
        Rank::Eight => 6,
        Rank::Nine => 7,
        Rank::Ten => 8,
        Rank::Jack => 9,
        Rank::Queen => 10,
        Rank::King => 11,
        Rank::Ace => 12,
    }
}

/// Position of a card in the canonical ordering: suit-major, rank-minor.
pub open spec fn card_index(c: Card) -> int {
    suit_index(c.suit) * 13 + rank_index(c.rank)
}

/// The card at position `i` of the canonical ordering.
pub open spec fn standard_card(i: int) -> Card {
    Card { suit: suit_at(i / 13), rank: rank_at(i % 13) }
}

/// All 52 cards in canonical order.
pub open spec fn standard_order() -> Seq<Card> {
    Seq::new(DECK_SIZE as nat, |i: int| standard_card(i))
}

proof fn lemma_card_index(c: Card)
    ensures
        0 <= card_index(c) < DECK_SIZE,
        standard_card(card_index(c)) == c,
{
}

proof fn lemma_standard_card(i: int)
    requires
        0 <= i < DECK_SIZE,
    ensures
        card_index(standard_card(i)) == i,
{
}

/// The canonical ordering holds every card exactly once.
pub proof fn lemma_standard_order_complete()
    ensures
        standard_order().len() == DECK_SIZE,
        standard_order().no_duplicates(),
        forall|c: Card| #[trigger] standard_order().contains(c),
{
    assert forall|a: int, b: int|
        0 <= a < standard_order().len() && 0 <= b < standard_order().len() && a != b
        implies standard_order()[a] != standard_order()[b] by {
        lemma_standard_card(a);
        lemma_standard_card(b);
    }
    assert forall|c: Card| #[trigger] standard_order().contains(c) by {
        lemma_card_index(c);
        assert(standard_order()[card_index(c)] == c);
    }
}

/// Relies on rand's `SliceRandom::shuffle` with the thread-local generator:
/// it only swaps elements, so the cards stay the same and only their order
/// changes.
#[verifier::external_body]
fn shuffle_cards(cards: &mut Vec<Card>)
    ensures
        final(cards)@.to_multiset() == old(cards)@.to_multiset(),
{
    cards.shuffle(&mut rand::thread_rng());
}

fn suit_from(i: usize) -> (r: Suit)
    requires
        i < 4,
    ensures
        r == suit_at(i as int),
{
    if i == 0 { Suit::Hearts }
    else if i == 1 { Suit::Diamonds }
    else if i == 2 { Suit::Clubs }
    else { Suit::Spades }
}

fn rank_from(i: usize) -> (r: Rank)
    requires
        i < 13,
    ensures
        r == rank_at(i as int),
{
    if i == 0 { Rank::Two }
    else if i == 1 { Rank::Three }
    else if i == 2 { Rank::Four }
    else if i == 3 { Rank::Five }
    else if i == 4 { Rank::Six }
    else if i == 5 { Rank::Seven }
    else if i == 6 { Rank::Eight }
    else if i == 7 { Rank::Nine }
    else if i == 8 { Rank::Ten }
    else if i == 9 { Rank::Jack }
    else if i == 10 { Rank::Queen }
    else if i == 11 { Rank::King }
    else { Rank::Ace }
}

/// The cards not yet dealt. The top of the deck, the next card dealt, is
/// the last element of the view.
pub struct Deck {
    cards: Vec<Card>,
}

impl View for Deck {
    type V = Seq<Card>;

    closed spec fn view(&self) -> Seq<Card> {
        self.cards@
    }
}

impl Deck {
    /// No card appears twice, so a deck never holds more than 52.
    pub open spec fn wf(&self) -> bool {
        self@.len() <= DECK_SIZE && self@.no_duplicates()
    }

    /// A full deck in canonical order: suit-major, rank-minor.
    pub fn new() -> (r: Deck)
        ensures
            r@ == standard_order(),
            r@.len() == DECK_SIZE,
            r@.no_duplicates(),
            forall|c: Card| #[trigger] r@.contains(c),
            r.wf(),
    {
        let mut cards: Vec<Card> = Vec::new();
        let mut i: usize = 0;
        while i < DECK_SIZE
            invariant
                i <= DECK_SIZE,
                cards@ =~= standard_order().take(i as int),
            decreases DECK_SIZE - i,
        {
            cards.push(Card { suit: suit_from(i / 13), rank: rank_from(i % 13) });
            i = i + 1;
            assert(cards@ =~= standard_order().take(i as int));
        }
        proof {
            lemma_standard_order_complete();
        }
        assert(cards@ =~= standard_order());
        Deck { cards }
    }

    /// A deck holding `cards`, the last of them on top. Refused (`None`)
    /// exactly when a card appears twice or there are more than 52.
    pub fn from_cards(cards: Vec<Card>) -> (r: Option<Deck>)
        ensures
            r.is_some() <==> cards@.len() <= DECK_SIZE && cards@.no_duplicates(),
            r matches Some(d) ==> d@ == cards@,
    {
        if cards.len() > DECK_SIZE {
            return None;
        }
        let mut i: usize = 0;
        while i < cards.len()
            invariant
                i <= cards@.len(),
                forall|a: int, b: int| 0 <= a < b < i ==> cards@[a] != cards@[b],
            decreases cards@.len() - i,
        {
            let mut j: usize = 0;
            while j < i
                invariant
                    j <= i < cards@.len(),
                    forall|a: int| 0 <= a < j ==> cards@[a] != cards@[i as int],
                decreases i - j,
            {
                if cards[j] == cards[i] {
                    return None;
                }
                j = j + 1;
            }
            i = i + 1;
        }
        Some(Deck { cards })
    }

    /// Puts the cards in a random order; the same cards remain.
    pub fn shuffle(&mut self)
        requires
            old(self).wf(),
        ensures
            final(self)@.to_multiset() == old(self)@.to_multiset(),
            final(self)@.len() == old(self)@.len(),
            final(self).wf(),
    {
        let ghost before = self.cards@;
        proof {
            before.lemma_multiset_has_no_duplicates();
        }
        shuffle_cards(&mut self.cards);
        proof {
            let after = self.cards@;
            assert(after.to_multiset() == before.to_multiset());
            assert(after.len() == after.to_multiset().len());
            assert(before.len() == before.to_multiset().len());
            after.lemma_multiset_has_no_duplicates_conv();
        }
    }

    /// Removes and returns the top card; `None` when the deck is empty.
    pub fn deal_card(&mut self) -> (r: Option<Card>)
        requires
            old(self).wf(),
        ensures
            final(self).wf(),
            old(self)@.len() == 0 ==> r is None && final(self)@ == old(self)@,
            old(self)@.len() > 0 ==> r == Some(old(self)@.last())
                && final(self)@ == old(self)@.drop_last(),
    {
        let r = self.cards.pop();
        proof {
            if old(self)@.len() > 0 {
                assert forall|a: int, b: int|
                    0 <= a < self@.len() && 0 <= b < self@.len() && a != b
                    implies self@[a] != self@[b] by {
                    assert(self@[a] == old(self)@[a] && self@[b] == old(self)@[b]);
                }
            }
        }
        r
    }

    pub fn len(&self) -> (r: usize)
        ensures
            r == self@.len(),
    {
        self.cards.len()
    }

    /// The cards, bottom first; the last one is the top.
    pub fn cards(&self) -> (r: &Vec<Card>)
        ensures
            r@ == self@,
    {
        &self.cards
    }
}

} // verus!
