use vstd::prelude::*;
use crate::card::Card;
use crate::deck::{Deck, DECK_SIZE, standard_order};
use crate::hand::{Hand, ace_count, base_sum, hand_total, soften};

verus! {

broadcast use vstd::seq_lib::group_to_multiset_ensures;

/// Bankroll a new game starts with.
pub const STARTING_MONEY: i32 = 100;

/// The dealer draws while the total is below this.
pub const DEALER_STANDS_AT: u32 = 17;

/// Where the round engine is in its cycle.
#[derive(Clone, Copy, Debug, PartialEq, Eq, Structural)]
pub enum Phase {
    NotStarted,
    InProgress,
    RoundOver,
}

/// Why an operation of the engine was refused or cut short.
#[derive(Clone, Copy, Debug, PartialEq, Eq, Structural)]
pub enum GameError {
    /// The deck ran out of cards.
    DeckExhausted,
    /// A round is under way, so a new one cannot start.
    RoundInProgress,
    /// No round is under way, so there is nothing to hit or stand on.
    NoRoundInProgress,
    /// Settling the bet either way would take the bankroll out of range.
    BetOutOfRange,
}

/// How a settled round ended for the player.
#[derive(Clone, Copy, Debug, PartialEq, Eq, Structural)]
pub enum Outcome {
    Win,
    Loss,
    Push,
}

/// The player wins when the dealer busts or the player's total is higher,
/// loses when it is lower, and pushes on equal totals.
pub open spec fn outcome_of(player: int, dealer: int) -> Outcome {
    if dealer > 21 || player > dealer {
        Outcome::Win
    } else if player < dealer {
        Outcome::Loss
    } else {
        Outcome::Push
    }
}

/// Bankroll after a round with the given outcome.
pub open spec fn settle_money(money: int, bet: int, o: Outcome) -> int {
    match o {
        Outcome::Win => money + bet,
        Outcome::Loss => money - bet,
        Outcome::Push => money,
    }
}

/// The dealer's hand and the deck once the dealer has drawn from the top
/// while under 17, or until the deck is empty.
pub open spec fn dealer_play(hand: Seq<Card>, deck: Seq<Card>) -> (Seq<Card>, Seq<Card>)
    decreases deck.len(),
{
    if hand_total(hand) >= DEALER_STANDS_AT || deck.len() == 0 {
        (hand, deck)
    } else {
        dealer_play(hand.push(deck.last()), deck.drop_last())
    }
}

/// Once the dealer's total is 17 or more, the dealer draws nothing more,
/// whatever the deck holds.
pub proof fn lemma_dealer_stops_at_17(hand: Seq<Card>, deck: Seq<Card>)
    requires
        hand_total(hand) >= DEALER_STANDS_AT,
    ensures
        dealer_play(hand, deck) == (hand, deck),
{
}

/// Below 17 the dealer takes the top card and goes on from there.
pub proof fn lemma_dealer_draws_below_17(hand: Seq<Card>, deck: Seq<Card>)
    requires
        hand_total(hand) < DEALER_STANDS_AT,
        deck.len() > 0,
    ensures
        dealer_play(hand, deck) == dealer_play(hand.push(deck.last()), deck.drop_last()),
{
}

proof fn lemma_soften_floor(value: int, aces: nat)
    ensures
        soften(value, aces) >= value - 10 * aces,
    decreases aces,
{
    if value > 21 && aces > 0 {
        lemma_soften_floor(value - 10, (aces - 1) as nat);
    }
}

/// A dealer holding a hard 16 (every ace in it already counted as one)
/// draws exactly one card and stops, whatever that card is.
pub proof fn lemma_dealer_hard_16_draws_once(hand: Seq<Card>, deck: Seq<Card>)
    requires
        hand_total(hand) == 16,
        hand_total(hand) == base_sum(hand) - 10 * ace_count(hand),
        deck.len() > 0,
    ensures
        dealer_play(hand, deck) == (hand.push(deck.last()), deck.drop_last()),
{
    let next = hand.push(deck.last());
    assert(next.drop_last() =~= hand);
    lemma_soften_floor(base_sum(next) as int, ace_count(next));
    lemma_dealer_stops_at_17(next, deck.drop_last());
}

/// A bet can be taken when both winning and losing it leave the bankroll
/// representable.
pub open spec fn bet_in_range(money: int, bet: int) -> bool {
    &&& -0x8000_0000 <= money - bet <= 0x7fff_ffff
    &&& -0x8000_0000 <= money + bet <= 0x7fff_ffff
}

/// The state of a game, as the contracts see it.
pub ghost struct GameView {
    pub deck: Seq<Card>,
    pub player: Seq<Card>,
    pub dealer: Seq<Card>,
    pub money: int,
    pub bet: int,
    pub wins: nat,
    pub losses: nat,
    pub phase: Phase,
}

/// The round engine: one deck, the player's and the dealer's hands, the
/// bankroll, the bet of the current round and the win and loss counts.
pub struct Game {
    deck: Deck,
    player_hand: Hand,
    dealer_hand: Hand,
    player_money: i32,
    current_bet: i32,
    wins: u32,
    losses: u32,
    phase: Phase,
}

impl View for Game {
    type V = GameView;

    closed spec fn view(&self) -> GameView {
        GameView {
            deck: self.deck@,
            player: self.player_hand@,
            dealer: self.dealer_hand@,
            money: self.player_money as int,
            bet: self.current_bet as int,
            wins: self.wins as nat,
            losses: self.losses as nat,
            phase: self.phase,
        }
    }
}

fn round_outcome(player: u32, dealer: u32) -> (r: Outcome)
    ensures
        r == outcome_of(player as int, dealer as int),
{
    if dealer > 21 || player > dealer {
        Outcome::Win
    } else if player < dealer {
        Outcome::Loss
    } else {
        Outcome::Push
    }
}

impl Game {
    /// Cards only leave the deck, so the deck and the two hands together
    /// hold at most 52 cards; every settled round took at least four cards,
    /// which bounds the counters; a round under way has a bet that can be
    /// settled either way.
    pub closed spec fn wf(&self) -> bool {
        &&& self.deck.wf()
        &&& self.deck@.len() + self.player_hand@.len() + self.dealer_hand@.len() <= DECK_SIZE
        &&& self.phase == Phase::InProgress ==> {
            &&& bet_in_range(self.player_money as int, self.current_bet as int)
            &&& 4 * (self.wins + self.losses + 1) + self.deck@.len() <= DECK_SIZE
        }
        &&& self.phase != Phase::InProgress ==> 4 * (self.wins + self.losses) + self.deck@.len()
            <= DECK_SIZE
    }

    /// A game with a freshly shuffled full deck, empty hands, a bankroll of
    /// 100 and no round started.
    pub fn new() -> (r: Game)
        ensures
            r.wf(),
            r@.deck.to_multiset() == standard_order().to_multiset(),
            r@.deck.len() == DECK_SIZE,
            r@.player == Seq::<Card>::empty(),
            r@.dealer == Seq::<Card>::empty(),
            r@.money == STARTING_MONEY,
            r@.bet == 0,
            r@.wins == 0,
            r@.losses == 0,
            r@.phase == Phase::NotStarted,
    {
        let mut deck = Deck::new();
        deck.shuffle();
        Game::with_deck(deck)
    }

    /// A game that deals from `deck` as it stands, top card first.
    pub fn with_deck(deck: Deck) -> (r: Game)
        requires
            deck.wf(),
        ensures
            r.wf(),
            r@.deck == deck@,
            r@.player == Seq::<Card>::empty(),
            r@.dealer == Seq::<Card>::empty(),
            r@.money == STARTING_MONEY,
            r@.bet == 0,
            r@.wins == 0,
            r@.losses == 0,
            r@.phase == Phase::NotStarted,
    {
        Game {
            deck,
            player_hand: Hand::new(),
            dealer_hand: Hand::new(),
            player_money: STARTING_MONEY,
            current_bet: 0,
            wins: 0,
            losses: 0,
            phase: Phase::NotStarted,
        }
    }

    /// Starts a round with stake `bet`: both hands are emptied and two cards
    /// dealt to each, alternately, the player first.
    ///
    /// Refused with no change: while a round is under way; when the bet
    /// could not be settled within the bankroll's range; when fewer than
    /// four cards are left.
    pub fn start_round(&mut self, bet: i32) -> (r: Result<(), GameError>)
        requires
            old(self).wf(),
        ensures
            final(self).wf(),
            ({
                let s = old(self)@;
                let n = s.deck.len() as int;
                if s.phase == Phase::InProgress {
                    r == Err::<(), GameError>(GameError::RoundInProgress) && final(self)@ == s
                } else if !bet_in_range(s.money, bet as int) {
                    r == Err::<(), GameError>(GameError::BetOutOfRange) && final(self)@ == s
                } else if n < 4 {
                    r == Err::<(), GameError>(GameError::DeckExhausted) && final(self)@ == s
                } else {
                    &&& r == Ok::<(), GameError>(())
                    &&& final(self)@ == (GameView {
                        deck: s.deck.take(n - 4),
                        player: seq![s.deck[n - 1], s.deck[n - 3]],
                        dealer: seq![s.deck[n - 2], s.deck[n - 4]],
                        bet: bet as int,
                        phase: Phase::InProgress,
                        ..s
                    })
                }
            }),
    {
        if self.phase == Phase::InProgress {
            return Err(GameError::RoundInProgress);
        }
        let lose: i64 = self.player_money as i64 - bet as i64;
        let win: i64 = self.player_money as i64 + bet as i64;
        if lose < i32::MIN as i64 || lose > i32::MAX as i64 || win < i32::MIN as i64
            || win > i32::MAX as i64 {
            return Err(GameError::BetOutOfRange);
        }
        if self.deck.len() < 4 {
            return Err(GameError::DeckExhausted);
        }
        let ghost d = self.deck@;
        self.current_bet = bet;
        self.player_hand = Hand::new();
        self.dealer_hand = Hand::new();
        self.phase = Phase::InProgress;
        let c1 = self.deck.deal_card().unwrap();
        self.player_hand.add_card(c1);
        let c2 = self.deck.deal_card().unwrap();
        self.dealer_hand.add_card(c2);
        let c3 = self.deck.deal_card().unwrap();
        self.player_hand.add_card(c3);
        let c4 = self.deck.deal_card().unwrap();
        self.dealer_hand.add_card(c4);
        proof {
            let n = d.len() as int;
            assert(self.deck@ =~= d.take(n - 4));
            assert(self.player_hand@ =~= seq![d[n - 1], d[n - 3]]);
            assert(self.dealer_hand@ =~= seq![d[n - 2], d[n - 4]]);
        }
        Ok(())
    }

    /// The player takes the top card. If that takes the player's total over
    /// 21 the round ends at once as a loss: the bet is taken from the
    /// bankroll and the loss counted.
    ///
    /// Refused with no change when no round is under way, or when the deck
    /// is empty.
    pub fn hit(&mut self) -> (r: Result<(), GameError>)
        requires
            old(self).wf(),
        ensures
            final(self).wf(),
            ({
                let s = old(self)@;
                if s.phase != Phase::InProgress {
                    r == Err::<(), GameError>(GameError::NoRoundInProgress) && final(self)@ == s
                } else if s.deck.len() == 0 {
                    r == Err::<(), GameError>(GameError::DeckExhausted) && final(self)@ == s
                } else {
                    let player = s.player.push(s.deck.last());
                    &&& r == Ok::<(), GameError>(())
                    &&& hand_total(player) > 21 ==> final(self)@ == (GameView {
                        deck: s.deck.drop_last(),
                        player: player,
                        money: s.money - s.bet,
                        losses: s.losses + 1,
                        phase: Phase::RoundOver,
                        ..s
                    })
                    &&& hand_total(player) <= 21 ==> final(self)@ == (GameView {
                        deck: s.deck.drop_last(),
                        player: player,
                        ..s
                    })
                }
            }),
    {
        if self.phase != Phase::InProgress {
            return Err(GameError::NoRoundInProgress);
        }
        match self.deck.deal_card() {
            None => Err(GameError::DeckExhausted),
            Some(card) => {
                self.player_hand.add_card(card);
                if self.player_hand.get_value() > 21 {
                    self.phase = Phase::RoundOver;
                    self.losses = self.losses + 1;
                    self.player_money = self.player_money - self.current_bet;
                }
                Ok(())
            },
        }
    }

    /// The player stands: the dealer draws from the top while under 17, then
    /// the round is settled and ends. A win adds the bet to the bankroll and
    /// counts a win; a loss takes it off and counts a loss; a push changes
    /// neither.
    ///
    /// Refused with no change when no round is under way. If the deck runs
    /// out before the dealer reaches 17, the round ends unsettled with
    /// `DeckExhausted`.
    pub fn stand(&mut self) -> (r: Result<(), GameError>)
        requires
            old(self).wf(),
        ensures
            final(self).wf(),
            ({
                let s = old(self)@;
                let (dealer, deck) = dealer_play(s.dealer, s.deck);
                let o = outcome_of(hand_total(s.player), hand_total(dealer));
                if s.phase != Phase::InProgress {
                    r == Err::<(), GameError>(GameError::NoRoundInProgress) && final(self)@ == s
                } else if hand_total(dealer) < DEALER_STANDS_AT {
                    &&& r == Err::<(), GameError>(GameError::DeckExhausted)
                    &&& final(self)@ == (GameView {
                        deck: deck,
                        dealer: dealer,
                        phase: Phase::RoundOver,
                        ..s
                    })
                } else {
                    &&& r == Ok::<(), GameError>(())
                    &&& final(self)@ == (GameView {
                        deck: deck,
                        dealer: dealer,
                        money: settle_money(s.money, s.bet, o),
                        wins: if o == Outcome::Win { s.wins + 1 } else { s.wins },
                        losses: if o == Outcome::Loss { s.losses + 1 } else { s.losses },
                        phase: Phase::RoundOver,
                        ..s
                    })
                }
            }),
    {
        if self.phase != Phase::InProgress {
            return Err(GameError::NoRoundInProgress);
        }
        let ghost s = self@;
        while self.dealer_hand.get_value() < DEALER_STANDS_AT && self.deck.len() > 0
            invariant
                self.deck.wf(),
                self.deck@.len() + self.player_hand@.len() + self.dealer_hand@.len() <= DECK_SIZE,
                self.deck@.len() <= s.deck.len(),
                dealer_play(self.dealer_hand@, self.deck@) == dealer_play(s.dealer, s.deck),
                self.player_hand@ == s.player,
                self.player_money == s.money,
                self.current_bet == s.bet,
                self.wins == s.wins,
                self.losses == s.losses,
                self.phase == s.phase,
            decreases self.deck@.len(),
        {
            if let Some(card) = self.deck.deal_card() {
                self.dealer_hand.add_card(card);
            }
        }
        self.phase = Phase::RoundOver;
        let dealer_value = self.dealer_hand.get_value();
        if dealer_value < DEALER_STANDS_AT {
            return Err(GameError::DeckExhausted);
        }
        let player_value = self.player_hand.get_value();
        match round_outcome(player_value, dealer_value) {
            Outcome::Win => {
                self.wins = self.wins + 1;
                self.player_money = self.player_money + self.current_bet;
            },
            Outcome::Loss => {
                self.losses = self.losses + 1;
                self.player_money = self.player_money - self.current_bet;
            },
            Outcome::Push => {},
        }
        Ok(())
    }

    /// Whether the current round has ended.
    pub fn is_game_over(&self) -> (r: bool)
        ensures
            r == (self@.phase == Phase::RoundOver),
    {
        self.phase == Phase::RoundOver
    }

    pub fn phase(&self) -> (r: Phase)
        ensures
            r == self@.phase,
    {
        self.phase
    }

    pub fn get_player_hand(&self) -> (r: &Hand)
        requires
            self.wf(),
        ensures
            r@ == self@.player,
            r.wf(),
    {
        &self.player_hand
    }

    pub fn get_dealer_hand(&self) -> (r: &Hand)
        requires
            self.wf(),
        ensures
            r@ == self@.dealer,
            r.wf(),
    {
        &self.dealer_hand
    }

    pub fn get_player_money(&self) -> (r: i32)
        ensures
            r == self@.money,
    {
        self.player_money
    }

    pub fn current_bet(&self) -> (r: i32)
        ensures
            r == self@.bet,
    {
        self.current_bet
    }

    pub fn get_wins(&self) -> (r: u32)
        ensures
            r == self@.wins,
    {
        self.wins
    }

    pub fn get_losses(&self) -> (r: u32)
        ensures
            r == self@.losses,
    {
        self.losses
    }

    /// Number of cards left in the deck.
    pub fn cards_left(&self) -> (r: usize)
        ensures
            r == self@.deck.len(),
    {
        self.deck.len()
    }
}

} // verus!
