//! The bot's choice of a play.

use vstd::prelude::*;
use rand::Rng;
use crate::card::Card;

verus! {

/// Whether `cards` is a play that the bot may choose from `hand`: one card
/// that the hand holds, or nothing where the hand is empty.
pub open spec fn is_play_from(cards: Seq<Card>, hand: Seq<Card>) -> bool {
    if hand.len() == 0 {
        cards.len() == 0
    } else {
        cards.len() == 1 && hand.contains(cards[0])
    }
}

/// The play that consists of the drawn card, if one was drawn.
pub open spec fn play_of(drawn: Option<Card>) -> Seq<Card> {
    match drawn {
        Some(card) => seq![card],
        None => Seq::empty(),
    }
}

/// Draws a card from `hand` with `rand::Rng::choose` on the generator of
/// `rand::thread_rng`. Believed of that call, and not proved: it returns
/// `None` for an empty slice and otherwise one of the slice's elements.
/// Which one is left open. The generator is seeded by the system on first
/// use, and panics there if the system has no entropy to give, whatever the
/// hand.
#[verifier::external_body]
fn draw(hand: &Vec<Card>) -> (drawn: Option<Card>)
    ensures
        hand@.len() == 0 ==> drawn is None,
        hand@.len() > 0 ==> drawn is Some && hand@.contains(drawn->0),
{
    rand::thread_rng().choose(hand.as_slice()).copied()
}

/// Turns a drawn card into a play.
pub fn single_play(drawn: Option<Card>) -> (cards: Vec<Card>)
    ensures
        cards@ == play_of(drawn),
{
    let mut cards: Vec<Card> = Vec::new();
    match drawn {
        Some(card) => {
            cards.push(card);
            assert(cards@ =~= seq![card]);
        },
        None => {},
    }
    cards
}

/// Chooses what to play from `hand`: one card, picked at random without
/// regard to the rules of the game. The server decides whether the play is
/// legal. An empty hand gives an empty play.
pub fn choose_play(hand: &Vec<Card>) -> (cards: Vec<Card>)
    ensures
        is_play_from(cards@, hand@),
{
    let drawn = draw(hand);
    single_play(drawn)
}

} // verus!
