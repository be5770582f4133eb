//! Who takes a trick: the comparison of two cards under a trump suit and a
//! lead card, lifted to plays that may be absent and to two teams.

use vstd::prelude::*;
use crate::card::{Card, CardView, Suit};

verus! {

/// Which of two compared sides prevails.
#[derive(Debug, Clone, Copy, PartialEq, Eq, Structural, Hash)]
pub enum LeftRight {
    Left,
    Right,
}

/// The mathematical content of a team's play: for each of its two members
/// the card played, if any.
pub struct TeamView {
    pub first: Option<CardView>,
    pub second: Option<CardView>,
}

impl TeamView {
    /// Every card played is well formed.
    pub open spec fn well_formed(self) -> bool {
        &&& self.first matches Some(card) ==> card.well_formed()
        &&& self.second matches Some(card) ==> card.well_formed()
    }

    /// Whether `card` is among the team's plays.
    pub open spec fn plays(self, card: CardView) -> bool {
        self.first == Some(card) || self.second == Some(card)
    }
}

/// The candidate on the side that `winner` names, and none where it names
/// no side.
pub open spec fn pick(
    winner: Option<LeftRight>,
    left: Option<CardView>,
    right: Option<CardView>,
) -> Option<CardView> {
    match winner {
        Some(LeftRight::Left) => left,
        Some(LeftRight::Right) => right,
        None => None,
    }
}

/// No card is present on both sides.
pub open spec fn differ(left: Option<CardView>, right: Option<CardView>) -> bool {
    left is Some ==> left != right
}

/// No card occurs twice among the plays of two teams.
pub open spec fn all_differ(left: TeamView, right: TeamView) -> bool {
    &&& differ(left.first, left.second)
    &&& differ(left.first, right.first)
    &&& differ(left.first, right.second)
    &&& differ(left.second, right.first)
    &&& differ(left.second, right.second)
    &&& differ(right.first, right.second)
}

/// The mathematical content of a trick's context: the card that was led and
/// the trump suit of the hand. The rules of the trick are stated over it.
pub struct HandView {
    pub lead: CardView,
    pub trump: Suit,
}

impl HandView {
    /// The right bower is the jack of the trump suit.
    pub open spec fn is_right_bower(self, card: CardView) -> bool {
        card.is_jack() && card.suit == self.trump
    }

    /// The left bower is the jack of trump's partner suit.
    pub open spec fn is_left_bower(self, card: CardView) -> bool {
        card.is_jack() && card.suit == self.trump.spec_opposite_color()
    }

    /// The suit a card counts as: the left bower counts as trump, every
    /// other card as its printed suit.
    pub open spec fn effective_suit(self, card: CardView) -> Suit {
        if self.is_left_bower(card) {
            self.trump
        } else {
            card.suit
        }
    }

    /// A card is trump when it counts as the trump suit, so the cards
    /// printed in trump and the left bower.
    pub open spec fn is_trump(self, card: CardView) -> bool {
        self.effective_suit(card) == self.trump
    }

    /// The suit that the lead card asks for: the suit the lead counts as.
    pub open spec fn suit_to_follow(self) -> Suit {
        self.effective_suit(self.lead)
    }

    /// A card follows suit when it counts as the suit that was led.
    pub open spec fn follows_suit(self, card: CardView) -> bool {
        self.effective_suit(card) == self.suit_to_follow()
    }

    /// A discard is neither trump nor of the suit led; it can take no trick.
    pub open spec fn is_discard(self, card: CardView) -> bool {
        !self.is_trump(card) && !self.follows_suit(card)
    }

    /// How strong a card is in this trick. Discards are worth nothing;
    /// cards that follow suit are worth their rank; every trump lies above
    /// every card that only follows suit, ordered by rank among them; the
    /// left bower lies above those, and the right bower above all.
    pub open spec fn power(self, card: CardView) -> nat {
        if self.is_right_bower(card) {
            30
        } else if self.is_left_bower(card) {
            29
        } else if self.is_trump(card) {
            14 + card.rank
        } else if self.follows_suit(card) {
            card.rank
        } else {
            0
        }
    }

    /// The side holding the stronger of two cards, or `None` where neither
    /// is stronger. For two different well-formed cards that is the case
    /// only when both are discards.
    pub open spec fn outcome(self, left: CardView, right: CardView) -> Option<LeftRight> {
        if self.power(left) > self.power(right) {
            Some(LeftRight::Left)
        } else if self.power(left) < self.power(right) {
            Some(LeftRight::Right)
        } else {
            None
        }
    }

    /// The comparison lifted to plays that may be absent. A card that is
    /// present prevails over an absent one whatever it is; two absent plays
    /// name no side; two present cards compare as `outcome` says.
    pub open spec fn outcome_optional(
        self,
        left: Option<CardView>,
        right: Option<CardView>,
    ) -> Option<LeftRight> {
        match (left, right) {
            (None, None) => None,
            (Some(_), None) => Some(LeftRight::Left),
            (None, Some(_)) => Some(LeftRight::Right),
            (Some(l), Some(r)) => self.outcome(l, r),
        }
    }

    /// The best of up to two candidates: the one that `outcome_optional`
    /// names, and none where it names no side.
    pub open spec fn best(self, left: Option<CardView>, right: Option<CardView>) -> Option<
        CardView,
    > {
        pick(self.outcome_optional(left, right), left, right)
    }

    /// The team that takes the trick: each team is reduced to its best
    /// card, and the two best cards are compared.
    pub open spec fn team_outcome(self, left: TeamView, right: TeamView) -> Option<LeftRight> {
        self.outcome_optional(
            self.best(left.first, left.second),
            self.best(right.first, right.second),
        )
    }
}

/// What one team has played in a trick so far: the card of each of its two
/// members, absent where the member has not played yet.
#[derive(Debug, Clone, Copy, PartialEq, Eq, Hash)]
pub struct TeamPlay {
    pub first: Option<Card>,
    pub second: Option<Card>,
}

impl View for TeamPlay {
    type V = TeamView;

    open spec fn view(&self) -> TeamView {
        TeamView { first: self.first.deep_view(), second: self.second.deep_view() }
    }
}

impl TeamPlay {
    /// Records the plays of a team's two members.
    pub fn new(first: Option<Card>, second: Option<Card>) -> (team: TeamPlay)
        ensures
            team.first == first,
            team.second == second,
    {
        TeamPlay { first, second }
    }
}

/// The context of a trick: the card that was led and the trump suit of the
/// hand. It is built once per trick and never changes.
#[derive(Debug, Clone, Copy, PartialEq, Eq, Structural, Hash)]
pub struct HandParams {
    lead: Card,
    trump: Suit,
}

impl View for HandParams {
    type V = HandView;

    closed spec fn view(&self) -> HandView {
        HandView { lead: self.lead@, trump: self.trump }
    }
}

impl HandParams {
    /// Sets up the context of a trick.
    pub fn new(lead: Card, trump: Suit) -> (params: HandParams)
        ensures
            params@ == (HandView { lead: lead@, trump }),
    {
        HandParams { lead, trump }
    }

    /// The card that was led.
    pub fn lead(&self) -> (lead: &Card)
        ensures
            lead@ == self@.lead,
    {
        &self.lead
    }

    /// The trump suit of the hand.
    pub fn trump(&self) -> (trump: &Suit)
        ensures
            *trump == self@.trump,
    {
        &self.trump
    }

    /// Whether `card` is the jack of trump.
    pub fn is_right_bower(&self, card: &Card) -> (bower: bool)
        ensures
            bower == self@.is_right_bower(card@),
    {
        card.is_jack() && *card.suit() == self.trump
    }

    /// Whether `card` is the jack of trump's partner suit.
    pub fn is_left_bower(&self, card: &Card) -> (bower: bool)
        ensures
            bower == self@.is_left_bower(card@),
    {
        card.is_jack() && *card.suit() == self.trump.opposite_color()
    }

    /// The suit that `card` counts as in this trick.
    pub fn effective_suit(&self, card: &Card) -> (suit: Suit)
        ensures
            suit == self@.effective_suit(card@),
    {
        if self.is_left_bower(card) {
            self.trump
        } else {
            *card.suit()
        }
    }

    /// Whether `card` counts as trump.
    pub fn is_trump(&self, card: &Card) -> (trump: bool)
        ensures
            trump == self@.is_trump(card@),
    {
        self.effective_suit(card) == self.trump
    }

    /// The suit that the lead card asks the other players for.
    pub fn suit_to_follow(&self) -> (suit: Suit)
        ensures
            suit == self@.suit_to_follow(),
    {
        self.effective_suit(&self.lead)
    }

    /// Whether `card` counts as the suit that was led.
    pub fn follows_suit(&self, card: &Card) -> (follows: bool)
        ensures
            follows == self@.follows_suit(card@),
    {
        self.effective_suit(card) == self.suit_to_follow()
    }

    /// Decides which of two cards outranks the other in this trick.
    ///
    /// `None` says that neither does: both cards are discards, and only the
    /// order of play, which is not known here, tells which of them stands.
    /// The two cards are meant to differ, as the cards of one deck do. For
    /// two equal cards that are no discards a side is named, and which one
    /// is left open.
    pub fn compare(&self, left: &Card, right: &Card) -> (winner: Option<LeftRight>)
        ensures
            winner is None <==> self@.is_discard(left@) && self@.is_discard(right@),
            left@ != right@ ==> winner == self@.outcome(left@, right@),
    {
        proof {
            use_type_invariant(left);
            use_type_invariant(right);
        }
        if self.is_right_bower(left) {
            Some(LeftRight::Left)
        } else if self.is_right_bower(right) {
            Some(LeftRight::Right)
        } else if self.is_left_bower(left) {
            Some(LeftRight::Left)
        } else if self.is_left_bower(right) {
            Some(LeftRight::Right)
        } else {
            match (self.is_trump(left), self.is_trump(right)) {
                (true, true) => Some(Self::higher_rank(left, right)),
                (true, false) => Some(LeftRight::Left),
                (false, true) => Some(LeftRight::Right),
                (false, false) => match (self.follows_suit(left), self.follows_suit(right)) {
                    (true, true) => Some(Self::higher_rank(left, right)),
                    (true, false) => Some(LeftRight::Left),
                    (false, true) => Some(LeftRight::Right),
                    (false, false) => None,
                },
            }
        }
    }

    /// Decides which of two plays prevails, where either may be absent.
    ///
    /// A card that is present prevails over an absent play without being
    /// looked at. `None` says that no side prevails: both plays are absent,
    /// or both are discards.
    pub fn compare_optional(&self, left: Option<Card>, right: Option<Card>) -> (winner: Option<
        LeftRight,
    >)
        ensures
            winner is None <==> (left is None && right is None) || (left is Some && right is Some
                && self@.is_discard(left.unwrap()@) && self@.is_discard(right.unwrap()@)),
            differ(left.deep_view(), right.deep_view()) ==> winner == self@.outcome_optional(
                left.deep_view(),
                right.deep_view(),
            ),
    {
        match (left, right) {
            (None, None) => None,
            (Some(_), None) => Some(LeftRight::Left),
            (None, Some(_)) => Some(LeftRight::Right),
            (Some(l), Some(r)) => self.compare(&l, &r),
        }
    }

    /// Reduces up to two candidates to the single best card.
    ///
    /// The result is the card that `compare_optional` favours, and `None`
    /// where it favours no side.
    pub fn best_card(&self, left: Option<Card>, right: Option<Card>) -> (best: Option<Card>)
        ensures
            best is None || best == left || best == right,
            differ(left.deep_view(), right.deep_view()) ==> best.deep_view() == self@.best(
                left.deep_view(),
                right.deep_view(),
            ),
    {
        match self.compare_optional(left, right) {
            Some(LeftRight::Left) => left,
            Some(LeftRight::Right) => right,
            None => None,
        }
    }

    /// Decides which of two teams takes the trick.
    ///
    /// Each team is reduced to its best card, and the two best cards are
    /// compared. `None` says that no team can be named from these plays
    /// alone. The cards present are meant to be pairwise different, as the
    /// cards of one deck are.
    pub fn compare_teams(&self, left: &TeamPlay, right: &TeamPlay) -> (winner: Option<LeftRight>)
        ensures
            all_differ(left@, right@) ==> winner == self@.team_outcome(left@, right@),
    {
        let left_best = self.best_card(left.first, left.second);
        let right_best = self.best_card(right.first, right.second);
        self.compare_optional(left_best, right_best)
    }

    /// The side of the higher rank; on equal ranks, the right.
    fn higher_rank(left: &Card, right: &Card) -> (winner: LeftRight)
        ensures
            winner == if left@.rank > right@.rank {
                LeftRight::Left
            } else {
                LeftRight::Right
            },
    {
        if left.rank() > right.rank() {
            LeftRight::Left
        } else {
            LeftRight::Right
        }
    }
}

} // verus!
