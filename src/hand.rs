use vstd::prelude::*;
use vstd::string::StringExecFns;
use crate::card::Card;
use crate::text::{decimal, push_decimal};

verus! {

/// A hand never holds more cards than a standard deck has.
pub const MAX_HAND: usize = 52;

/// Sum of the base point values of the cards, every ace counted eleven.
pub open spec fn base_sum(s: Seq<Card>) -> nat
    decreases s.len(),
{
    if s.len() == 0 {
        0
    } else {
        base_sum(s.drop_last()) + s.last().points()
    }
}

/// Number of aces among the cards.
pub open spec fn ace_count(s: Seq<Card>) -> nat
    decreases s.len(),
{
    if s.len() == 0 {
        0
    } else {
        ace_count(s.drop_last()) + if s.last().is_ace() { 1nat } else { 0nat }
    }
}

/// Counts aces down from eleven to one, one at a time, while the total is
/// over 21 and an ace still counts eleven.
pub open spec fn soften(value: int, aces: nat) -> int
    decreases aces,
{
    if value > 21 && aces > 0 {
        soften(value - 10, (aces - 1) as nat)
    } else {
        value
    }
}

/// The blackjack total of a sequence of cards.
pub open spec fn hand_total(s: Seq<Card>) -> int {
    soften(base_sum(s) as int, ace_count(s))
}

/// What the card at position `i` shows; the second card is concealed when
/// `hide_second` holds.
pub open spec fn shown(s: Seq<Card>, hide_second: bool, i: int) -> Seq<char> {
    if hide_second && i == 1 {
        "Hidden"@
    } else {
        s[i].text()
    }
}

/// The first `n` cards as shown, separated by `", "`.
pub open spec fn joined(s: Seq<Card>, hide_second: bool, n: nat) -> Seq<char>
    decreases n,
{
    if n == 0 {
        Seq::empty()
    } else if n == 1 {
        shown(s, hide_second, 0)
    } else {
        joined(s, hide_second, (n - 1) as nat) + ", "@ + shown(s, hide_second, n - 1)
    }
}

/// The text of a hand: its cards as shown, then its total.
pub open spec fn hand_text(s: Seq<Card>, hide_second: bool) -> Seq<char> {
    joined(s, hide_second, s.len()) + " (Total: "@ + decimal(hand_total(s) as nat) + ")"@
}

proof fn lemma_aces_weigh(s: Seq<Card>)
    ensures
        base_sum(s) >= 11 * ace_count(s),
    decreases s.len(),
{
    if s.len() > 0 {
        lemma_aces_weigh(s.drop_last());
    }
}

/// The cards held by one party, in the order they were dealt.
pub struct Hand {
    cards: Vec<Card>,
}

impl View for Hand {
    type V = Seq<Card>;

    closed spec fn view(&self) -> Seq<Card> {
        self.cards@
    }
}

impl Hand {
    pub open spec fn wf(&self) -> bool {
        self@.len() <= MAX_HAND
    }

    pub open spec fn total(&self) -> int {
        hand_total(self@)
    }

    pub open spec fn busted(&self) -> bool {
        self.total() > 21
    }

    pub fn new() -> (r: Hand)
        ensures
            r@ == Seq::<Card>::empty(),
            r.wf(),
    {
        Hand { cards: Vec::new() }
    }

    pub fn add_card(&mut self, card: Card)
        requires
            old(self)@.len() < MAX_HAND,
        ensures
            final(self)@ == old(self)@.push(card),
            final(self).wf(),
    {
        self.cards.push(card);
    }

    pub fn len(&self) -> (r: usize)
        ensures
            r == self@.len(),
    {
        self.cards.len()
    }

    /// The cards, in the order they were dealt.
    pub fn cards(&self) -> (r: &Vec<Card>)
        ensures
            r@ == self@,
    {
        &self.cards
    }

    /// Blackjack total: every card at its base value, then ten taken off for
    /// each ace, one at a time, while the total is over 21.
    pub fn get_value(&self) -> (r: u32)
        requires
            self.wf(),
        ensures
            r == self.total(),
    {
        let mut value: u32 = 0;
        let mut aces: u32 = 0;
        let mut i: usize = 0;
        while i < self.cards.len()
            invariant
                i <= self.cards@.len() <= MAX_HAND,
                value == base_sum(self.cards@.take(i as int)),
                aces == ace_count(self.cards@.take(i as int)),
                value <= 11 * i,
                aces <= i,
            decreases self.cards@.len() - i,
        {
            let card = self.cards[i];
            assert(self.cards@.take(i + 1).drop_last() =~= self.cards@.take(i as int));
            value = value + card.get_value() as u32;
            if card.is_ace_card() {
                aces = aces + 1;
            }
            i = i + 1;
        }
        assert(self.cards@.take(i as int) =~= self.cards@);
        proof {
            lemma_aces_weigh(self.cards@);
        }
        while value > 21 && aces > 0
            invariant
                soften(value as int, aces as nat) == hand_total(self.cards@),
                value >= 10 * aces,
            decreases aces,
        {
            value = value - 10;
            aces = aces - 1;
        }
        value
    }

    pub fn is_bust(&self) -> (r: bool)
        requires
            self.wf(),
        ensures
            r == self.busted(),
    {
        self.get_value() > 21
    }

    /// The hand as text: each card, the second replaced by `Hidden` when
    /// `hide_second_card` holds, joined by `", "`, then ` (Total: n)`.
    /// The total counts every card, concealed or not.
    pub fn display(&self, hide_second_card: bool) -> (r: String)
        requires
            self.wf(),
        ensures
            r@ == hand_text(self@, hide_second_card),
    {
        let mut out = String::new();
        let mut i: usize = 0;
        while i < self.cards.len()
            invariant
                i <= self.cards@.len(),
                out@ == joined(self.cards@, hide_second_card, i as nat),
            decreases self.cards@.len() - i,
        {
            if i > 0 {
                out.append(", ");
            }
            if hide_second_card && i == 1 {
                out.append("Hidden");
            } else {
                let shown_card = self.cards[i].display();
                out.append(shown_card.as_str());
            }
            i = i + 1;
        }
        out.append(" (Total: ");
        let total = self.get_value();
        push_decimal(&mut out, total);
        out.append(")");
        out
    }
}

} // verus!
