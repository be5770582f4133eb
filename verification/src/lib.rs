//! Trick resolution for the card game Euchre.
//!
//! The crate models cards, builds the 24-card Euchre deck, and decides which
//! of two cards, or which of two teams, takes a trick under a trump suit and
//! a lead card. Every function carries a contract. Verus proves each of
//! them but one: the call into `rand` that shuffles a slice is trusted.

pub mod card;
pub mod euchre;
pub mod laws;

use vstd::prelude::*;
use crate::card::{Card, CardView, Special, Suit};

verus! {

/// The card at position `index` of the unshuffled deck. The ranks rise from
/// nine to ace, four cards to a rank, and within a rank the suits stand in
/// their enumeration order.
pub open spec fn deck_card(index: int) -> CardView {
    CardView { suit: Suit::order()[index % 4], rank: (9 + index / 4) as nat }
}

/// Where a card from nine to ace stands in the unshuffled deck.
pub open spec fn deck_position(card: CardView) -> int {
    4 * (card.rank - 9) + card.suit.position()
}

/// The unshuffled Euchre deck: the 24 cards from nine to ace of every suit.
pub open spec fn spec_euchre_deck() -> Seq<CardView> {
    Seq::new(24, |index: int| deck_card(index))
}

/// Creates an unshuffled standard Euchre deck: 9, 10, J, Q, K, A of each
/// suit. The deck is `spec_euchre_deck`; its length and the card at each
/// position are stated once more in the form that callers index by.
pub fn euchre_deck() -> (deck: Vec<Card>)
    ensures
        deck.deep_view() == spec_euchre_deck(),
        deck@.len() == 24,
        forall|index: int| 0 <= index < 24 ==> (#[trigger] deck@[index])@ == deck_card(index),
{
    let suits = Suit::iter();
    let specials = Special::iter();
    let mut deck: Vec<Card> = Vec::new();
    let mut rank: u8 = 9;
    while rank <= 10
        invariant
            9 <= rank <= 11,
            suits@ == Suit::order(),
            deck@.len() == 4 * (rank - 9),
            forall|i: int| 0 <= i < deck@.len() ==> deck@[i]@ == deck_card(i),
        decreases 11 - rank,
    {
        let mut suit: usize = 0;
        while suit < suits.len()
            invariant
                9 <= rank <= 10,
                suit <= 4,
                suits@ == Suit::order(),
                deck@.len() == 4 * (rank - 9) + suit,
                forall|i: int| 0 <= i < deck@.len() ==> deck@[i]@ == deck_card(i),
            decreases 4 - suit,
        {
            deck.push(Card::new(suits[suit], rank).unwrap());
            suit += 1;
        }
        rank += 1;
    }
    let mut face: usize = 0;
    while face < specials.len()
        invariant
            face <= 4,
            suits@ == Suit::order(),
            specials@ == Special::order(),
            deck@.len() == 8 + 4 * face,
            forall|i: int| 0 <= i < deck@.len() ==> deck@[i]@ == deck_card(i),
        decreases 4 - face,
    {
        let mut suit: usize = 0;
        while suit < suits.len()
            invariant
                face < 4,
                suit <= 4,
                suits@ == Suit::order(),
                specials@ == Special::order(),
                deck@.len() == 8 + 4 * face + suit,
                forall|i: int| 0 <= i < deck@.len() ==> deck@[i]@ == deck_card(i),
            decreases 4 - suit,
        {
            deck.push(Card::new_special(suits[suit], specials[face]));
            suit += 1;
        }
        face += 1;
    }
    deck
}

/// Shuffles a slice in place with `rand::seq::SliceRandom::shuffle`, drawing
/// from the thread-local generator that `rand::rng` hands out. The call
/// only ever swaps elements of the slice, so whatever order comes out holds
/// the elements that went in, each as often as before. Which order comes
/// out is left open. `rand::rng` panics where the operating system gives
/// the generator no seed.
#[verifier::external_body]
fn shuffle_in_place<T>(deck: &mut [T])
    ensures
        final(deck)@.to_multiset() == old(deck)@.to_multiset(),
{
    rand::seq::SliceRandom::shuffle(deck, &mut rand::rng());
}

/// Shuffles `deck` in place into a random order and hands the same slice
/// back. The shuffled slice is a rearrangement of the elements given: none
/// is lost, added or duplicated.
pub fn shuffle<T>(deck: &mut [T]) -> (shuffled: &mut [T])
    ensures
        shuffled@.to_multiset() == old(deck)@.to_multiset(),
        shuffled@.len() == old(deck)@.len(),
        final(deck)@ == final(shuffled)@,
{
    shuffle_in_place(deck);
    proof {
        deck@.to_multiset_ensures();
        old(deck)@.to_multiset_ensures();
    }
    deck
}

} // verus!
