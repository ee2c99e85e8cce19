use vstd::prelude::*;
use vstd::string::StringExecFns;

verus! {

/// The four suits of a standard deck.
#[derive(Clone, Copy, Debug, PartialEq, Eq, Structural)]
pub enum Suit {
    Hearts,
    Diamonds,
    Clubs,
    Spades,
}

/// The thirteen ranks of a standard deck, lowest first.
#[derive(Clone, Copy, Debug, PartialEq, Eq, Structural)]
pub enum Rank {
    Two,
    Three,
    Four,
    Five,
    Six,
    Seven,
    Eight,
    Nine,
    Ten,
    Jack,
    Queen,
    King,
    Ace,
}

/// One playing card. Any pairing of suit and rank is a valid card.
#[derive(Clone, Copy, Debug, PartialEq, Eq, Structural)]
pub struct Card {
    pub suit: Suit,
    pub rank: Rank,
}

/// Base point value of a rank: pips for number cards, ten for faces, eleven
/// for an ace (a hand may later count an ace as one).
pub open spec fn rank_points(r: Rank) -> nat {
    match r {
        Rank::Two => 2,
        Rank::Three => 3,
        Rank::Four => 4,
        Rank::Five => 5,
        Rank::Six => 6,
        Rank::Seven => 7,
        Rank::Eight => 8,
        Rank::Nine => 9,
        Rank::Ten | Rank::Jack | Rank::Queen | Rank::King => 10,
        Rank::Ace => 11,
    }
}

/// The token a rank is written with.
pub open spec fn rank_token(r: Rank) -> Seq<char> {
    match r {
        Rank::Two => "2"@,
        Rank::Three => "3"@,
        Rank::Four => "4"@,
        Rank::Five => "5"@,
        Rank::Six => "6"@,
        Rank::Seven => "7"@,
        Rank::Eight => "8"@,
        Rank::Nine => "9"@,
        Rank::Ten => "10"@,
        Rank::Jack => "J"@,
        Rank::Queen => "Q"@,
        Rank::King => "K"@,
        Rank::Ace => "A"@,
    }
}

/// The glyph a suit is written with.
pub open spec fn suit_glyph(s: Suit) -> Seq<char> {
    match s {
        Suit::Hearts => "\u{2665}"@,
        Suit::Diamonds => "\u{2666}"@,
        Suit::Clubs => "\u{2663}"@,
        Suit::Spades => "\u{2660}"@,
    }
}

impl Card {
    pub open spec fn points(self) -> nat {
        rank_points(self.rank)
    }

    pub open spec fn is_ace(self) -> bool {
        self.rank == Rank::Ace
    }

    /// How the card is shown: its rank token followed by its suit glyph.
    pub open spec fn text(self) -> Seq<char> {
        rank_token(self.rank) + suit_glyph(self.suit)
    }

    pub fn new(suit: Suit, rank: Rank) -> (r: Card)
        ensures
            r.suit == suit,
            r.rank == rank,
    {
        Card { suit, rank }
    }

    pub fn suit(&self) -> (r: Suit)
        ensures
            r == self.suit,
    {
        self.suit
    }

    pub fn rank(&self) -> (r: Rank)
        ensures
            r == self.rank,
    {
        self.rank
    }

    /// Base point value of the card; an ace counts eleven here.
    pub fn get_value(&self) -> (r: u8)
        ensures
            r == self.points(),
    {
        match self.rank {
            Rank::Two => 2,
            Rank::Three => 3,
            Rank::Four => 4,
            Rank::Five => 5,
            Rank::Six => 6,
            Rank::Seven => 7,
            Rank::Eight => 8,
            Rank::Nine => 9,
            Rank::Ten | Rank::Jack | Rank::Queen | Rank::King => 10,
            Rank::Ace => 11,
        }
    }

    pub fn is_ace_card(&self) -> (r: bool)
        ensures
            r == self.is_ace(),
    {
        match self.rank {
            Rank::Ace => true,
            _ => false,
        }
    }

    /// The card as text, such as `10♥` or `A♠`.
    pub fn display(&self) -> (r: String)
        ensures
            r@ == self.text(),
    {
        let token: &str = match self.rank {
            Rank::Two => "2",
            Rank::Three => "3",
            Rank::Four => "4",
            Rank::Five => "5",
            Rank::Six => "6",
            Rank::Seven => "7",
            Rank::Eight => "8",
            Rank::Nine => "9",
            Rank::Ten => "10",
            Rank::Jack => "J",
            Rank::Queen => "Q",
            Rank::King => "K",
            Rank::Ace => "A",
        };
        let glyph: &str = match self.suit {
            Suit::Hearts => "\u{2665}",
            Suit::Diamonds => "\u{2666}",
            Suit::Clubs => "\u{2663}",
            Suit::Spades => "\u{2660}",
        };
        let mut s = String::from_str(token);
        s.append(glyph);
        s
    }
}

} // verus!
