//! Cards and the public snapshot of a game, as the server describes them.

use vstd::prelude::*;

verus! {

/// Number of cards a player is dealt at the start of a game.
pub const HAND_SIZE: usize = 6;

/// The four suits.
#[derive(Copy, Clone, Debug, PartialEq, Eq, Structural)]
pub enum CardSuit {
    Clubs,
    Diamonds,
    Hearts,
    Spades,
}

/// The thirteen ranks, lowest first.
#[derive(Copy, Clone, Debug, PartialEq, Eq, Structural)]
pub enum CardValue {
    Two,
    Three,
    Four,
    Five,
    Six,
    Seven,
    Eight,
    Nine,
    Ten,
    Jack,
    Queen,
    King,
    Ace,
}

/// A playing card. Two cards are the same card when rank and suit agree;
/// the bots do not rank cards against each other.
#[derive(Copy, Clone, Debug, PartialEq, Eq, Structural)]
pub struct Card {
    pub value: CardValue,
    pub suit: CardSuit,
}

/// Three optional cards: a player's face-up selection.
pub type CardTriplet = (Option<Card>, Option<Card>, Option<Card>);

/// The two phases of a game.
#[derive(Copy, Clone, Debug, PartialEq, Eq, Structural)]
pub enum GamePhase {
    Setup,
    Play,
}

/// What every player may know of a game: hand sizes but not hand contents,
/// the piles on the table, and whose turn it is.
#[derive(Debug, PartialEq, Eq)]
pub struct PublicGameState {
    /// Number of cards in each player's hand, by seat.
    pub hands: Vec<usize>,
    /// Each player's face-up cards, by seat.
    pub face_up_three: Vec<Vec<Card>>,
    /// Number of face-down cards each player still has, by seat.
    pub face_down_three: Vec<u8>,
    /// The card on top of the draw pile, if any.
    pub top_card: Option<Card>,
    pub pile_size: usize,
    pub cleared_size: usize,
    pub cur_phase: GamePhase,
    /// Seat of the player who may act now.
    pub active_player: u8,
    pub last_cards_played: Vec<Card>,
}

impl Card {
    pub fn new(value: CardValue, suit: CardSuit) -> (card: Card)
        ensures
            card == (Card { value, suit }),
    {
        Card { value, suit }
    }
}

impl PublicGameState {
    /// Whether the player at `seat` is the one who may act.
    pub open spec fn is_turn_of(self, seat: u8) -> bool {
        self.active_player == seat
    }

    /// Whether the player at `seat` is the one who may act.
    pub fn turn_of(&self, seat: u8) -> (active: bool)
        ensures
            active == self.is_turn_of(seat),
    {
        self.active_player == seat
    }
}

} // verus!
