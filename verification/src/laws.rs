//! Laws of the model: what holds of every suit, card and trick. Each is
//! proved of the spec functions in which the contracts of the executable
//! functions are written.

use vstd::prelude::*;
use crate::card::{Card, CardError, CardView, Special, Suit};
use crate::euchre::{all_differ, HandView, LeftRight, TeamView};
use crate::{deck_card, deck_position, spec_euchre_deck};

verus! {

/// The side that is not `side`.
pub open spec fn flip(side: Option<LeftRight>) -> Option<LeftRight> {
    match side {
        Some(LeftRight::Left) => Some(LeftRight::Right),
        Some(LeftRight::Right) => Some(LeftRight::Left),
        None => None,
    }
}

/// Taking the partner suit twice gives the suit back, and no suit is its
/// own partner.
pub proof fn lemma_opposite_color_involutive(suit: Suit)
    ensures
        suit.spec_opposite_color().spec_opposite_color() == suit,
        suit.spec_opposite_color() != suit,
{
}

/// The enumeration order of the suits holds every suit exactly once.
pub proof fn lemma_suit_order_exhaustive(suit: Suit, index: int)
    ensures
        Suit::order().len() == 4,
        0 <= suit.position() < 4,
        Suit::order()[suit.position()] == suit,
        0 <= index < 4 ==> Suit::order()[index].position() == index,
{
}

/// The enumeration order of the face ranks holds every face rank exactly
/// once, by rising rank from jack to ace.
pub proof fn lemma_special_order_exhaustive(special: Special, index: int)
    ensures
        Special::order().len() == 4,
        11 <= special.rank() <= 14,
        Special::order()[special.rank() - 11] == special,
        0 <= index < 4 ==> Special::order()[index].rank() == 11 + index,
{
}

/// A pip rank in 2..=10 is accepted with every suit, and the card built
/// carries exactly that suit and rank; every other rank is rejected as
/// invalid, and the error names it.
pub proof fn lemma_new_accepts_exactly_pips(suit: Suit, rank: u8)
    ensures
        2 <= rank <= 10 ==> Card::spec_new(suit, rank) is Ok && Card::spec_new(
            suit,
            rank,
        )->Ok_0.suit == suit && Card::spec_new(suit, rank)->Ok_0.rank == rank && Card::spec_new(
            suit,
            rank,
        )->Ok_0.well_formed(),
        !(2 <= rank <= 10) ==> Card::spec_new(suit, rank) == Err::<CardView, CardError>(
            CardError::InvalidRank(rank),
        ),
{
}

/// Every position of the unshuffled deck holds a card from nine to ace,
/// and that card's place in the deck is this position.
pub proof fn lemma_deck_holds_nine_to_ace(index: int)
    requires
        0 <= index < 24,
    ensures
        spec_euchre_deck()[index] == deck_card(index),
        9 <= deck_card(index).rank <= 14,
        deck_card(index).well_formed(),
        deck_position(deck_card(index)) == index,
{
}

/// Every card from nine to ace stands in the unshuffled deck, at its place.
pub proof fn lemma_deck_is_complete(card: CardView)
    requires
        9 <= card.rank <= 14,
    ensures
        0 <= deck_position(card) < 24,
        spec_euchre_deck()[deck_position(card)] == card,
        spec_euchre_deck().contains(card),
{
}

/// No card stands twice in the unshuffled deck.
pub proof fn lemma_deck_has_no_duplicates()
    ensures
        spec_euchre_deck().len() == 24,
        spec_euchre_deck().no_duplicates(),
{
    assert forall|i: int, j: int|
        0 <= i < 24 && 0 <= j < 24 && i != j implies spec_euchre_deck()[i]
        != spec_euchre_deck()[j] by {
        lemma_deck_holds_nine_to_ace(i);
        lemma_deck_holds_nine_to_ace(j);
    }
}

/// Two different cards are never equally strong unless both are discards:
/// within a trick no two cards that can win tie.
pub proof fn lemma_power_separates(hand: HandView, a: CardView, b: CardView)
    requires
        a.well_formed(),
        b.well_formed(),
        a != b,
        hand.power(a) == hand.power(b),
    ensures
        hand.is_discard(a),
        hand.is_discard(b),
{
}

/// A card is worth nothing exactly when it is a discard.
pub proof fn lemma_powerless_is_discard(hand: HandView, card: CardView)
    requires
        card.well_formed(),
    ensures
        hand.power(card) == 0 <==> hand.is_discard(card),
{
}

/// The lead card is never a discard: it counts as the very suit it asks for.
pub proof fn lemma_lead_is_no_discard(hand: HandView)
    requires
        hand.lead.well_formed(),
    ensures
        !hand.is_discard(hand.lead),
        hand.power(hand.lead) > 0,
{
}

/// Swapping the two cards swaps the side named.
pub proof fn lemma_outcome_antisymmetric(hand: HandView, left: CardView, right: CardView)
    ensures
        hand.outcome(right, left) == flip(hand.outcome(left, right)),
{
}

/// Outranking carries over: a card that outranks a second, which outranks
/// a third, outranks the third.
pub proof fn lemma_outcome_transitive(hand: HandView, a: CardView, b: CardView, c: CardView)
    requires
        hand.outcome(a, b) == Some(LeftRight::Left),
        hand.outcome(b, c) == Some(LeftRight::Left),
    ensures
        hand.outcome(a, c) == Some(LeftRight::Left),
{
}

/// The right bower outranks every other card, on whichever side it stands.
pub proof fn lemma_right_bower_beats_all(hand: HandView, bower: CardView, other: CardView)
    requires
        hand.is_right_bower(bower),
        other.well_formed(),
        other != bower,
    ensures
        hand.outcome(bower, other) == Some(LeftRight::Left),
        hand.outcome(other, bower) == Some(LeftRight::Right),
{
}

/// The left bower loses to the right bower and outranks every other card,
/// the ace of trump among them.
pub proof fn lemma_left_bower_beats_all_but_right(
    hand: HandView,
    bower: CardView,
    other: CardView,
)
    requires
        hand.is_left_bower(bower),
        other.well_formed(),
        other != bower,
    ensures
        hand.is_right_bower(other) ==> hand.outcome(bower, other) == Some(LeftRight::Right),
        !hand.is_right_bower(other) ==> hand.outcome(bower, other) == Some(LeftRight::Left),
{
}

/// Every trump outranks every card that is not trump.
pub proof fn lemma_trump_beats_plain(hand: HandView, trump: CardView, plain: CardView)
    requires
        trump.well_formed(),
        plain.well_formed(),
        hand.is_trump(trump),
        !hand.is_trump(plain),
    ensures
        hand.outcome(trump, plain) == Some(LeftRight::Left),
        hand.outcome(plain, trump) == Some(LeftRight::Right),
{
}

/// Of two trumps that are not bowers, the higher rank wins.
pub proof fn lemma_higher_trump_wins(hand: HandView, left: CardView, right: CardView)
    requires
        left.well_formed(),
        right.well_formed(),
        hand.is_trump(left),
        hand.is_trump(right),
        !left.is_jack(),
        !right.is_jack(),
    ensures
        left.rank > right.rank ==> hand.outcome(left, right) == Some(LeftRight::Left),
        left.rank < right.rank ==> hand.outcome(left, right) == Some(LeftRight::Right),
{
}

/// Of two cards that are not trump, one that follows suit outranks one
/// that does not.
pub proof fn lemma_following_beats_discard(hand: HandView, follower: CardView, discard: CardView)
    requires
        follower.well_formed(),
        !hand.is_trump(follower),
        hand.follows_suit(follower),
        hand.is_discard(discard),
    ensures
        hand.outcome(follower, discard) == Some(LeftRight::Left),
        hand.outcome(discard, follower) == Some(LeftRight::Right),
{
}

/// Of two cards that follow suit and are not trump, the higher rank wins.
pub proof fn lemma_higher_follower_wins(hand: HandView, left: CardView, right: CardView)
    requires
        left.well_formed(),
        right.well_formed(),
        !hand.is_trump(left),
        !hand.is_trump(right),
        hand.follows_suit(left),
        hand.follows_suit(right),
    ensures
        left.rank > right.rank ==> hand.outcome(left, right) == Some(LeftRight::Left),
        left.rank < right.rank ==> hand.outcome(left, right) == Some(LeftRight::Right),
{
}

/// Two different cards name no side exactly when both are discards.
pub proof fn lemma_indeterminate_iff_discards(hand: HandView, left: CardView, right: CardView)
    requires
        left.well_formed(),
        right.well_formed(),
        left != right,
    ensures
        hand.outcome(left, right) is None <==> hand.is_discard(left) && hand.is_discard(right),
{
}

/// A card that is present prevails over an absent play, whatever its suit
/// and rank, and is the best of the two; two absent plays name no side and
/// have no best card.
pub proof fn lemma_present_beats_absent(hand: HandView, card: CardView)
    ensures
        hand.outcome_optional(Some(card), None) == Some(LeftRight::Left),
        hand.outcome_optional(None, Some(card)) == Some(LeftRight::Right),
        hand.outcome_optional(None, None) is None,
        hand.best(Some(card), None) == Some(card),
        hand.best(None, Some(card)) == Some(card),
        hand.best(None, None) is None,
{
}

/// The best of two plays is one of them, and no play that is present is
/// stronger than it; there is none only where both plays are absent or
/// both are discards.
pub proof fn lemma_best_is_strongest(
    hand: HandView,
    left: Option<CardView>,
    right: Option<CardView>,
)
    ensures
        match hand.best(left, right) {
            Some(best) => {
                &&& left == Some(best) || right == Some(best)
                &&& left matches Some(l) ==> hand.power(l) <= hand.power(best)
                &&& right matches Some(r) ==> hand.power(r) <= hand.power(best)
            },
            None => {
                ||| left is None && right is None
                ||| left matches Some(l) && right matches Some(r) && hand.power(l) == hand.power(r)
            },
        },
{
}

/// The team that holds the strongest card of the trick takes it: where a
/// card that is no discard has been played and no card played is stronger,
/// the team that played it is named.
pub proof fn lemma_strongest_card_takes_trick(
    hand: HandView,
    left: TeamView,
    right: TeamView,
    top: CardView,
)
    requires
        left.well_formed(),
        right.well_formed(),
        all_differ(left, right),
        !hand.is_discard(top),
        left.plays(top) || right.plays(top),
        forall|card: CardView|
            #![trigger left.plays(card)]
            #![trigger right.plays(card)]
            left.plays(card) || right.plays(card) ==> hand.power(card) <= hand.power(top),
    ensures
        left.plays(top) ==> hand.team_outcome(left, right) == Some(LeftRight::Left),
        right.plays(top) ==> hand.team_outcome(left, right) == Some(LeftRight::Right),
{
    assert forall|card: CardView|
        (left.plays(card) || right.plays(card)) && card != top implies hand.power(card)
        < hand.power(top) by {
        if hand.power(card) == hand.power(top) {
            lemma_power_separates(hand, card, top);
        }
    }
    assert(left.first matches Some(card) ==> left.plays(card));
    assert(left.second matches Some(card) ==> left.plays(card));
    assert(right.first matches Some(card) ==> right.plays(card));
    assert(right.second matches Some(card) ==> right.plays(card));
}

/// A trick in which the lead card has been played always names a team.
pub proof fn lemma_trick_with_lead_names_a_team(hand: HandView, left: TeamView, right: TeamView)
    requires
        left.well_formed(),
        right.well_formed(),
        all_differ(left, right),
        left.plays(hand.lead) || right.plays(hand.lead),
    ensures
        hand.team_outcome(left, right) is Some,
{
}

/// Swapping the two teams swaps the team named.
pub proof fn lemma_team_outcome_antisymmetric(hand: HandView, left: TeamView, right: TeamView)
    ensures
        hand.team_outcome(right, left) == flip(hand.team_outcome(left, right)),
{
}

} // verus!
