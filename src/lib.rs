//! A single-player blackjack engine: cards, a deck, hands scored with the
//! soft-ace rule, and a round state machine with a bankroll ledger.

pub mod card;
pub mod text;
pub mod deck;
pub mod hand;
pub mod game;
