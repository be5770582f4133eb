//! Suits, face ranks and cards.

use vstd::prelude::*;

verus! {

/// One of the four suits of a deck.
#[derive(Debug, Clone, Copy, PartialEq, Eq, Structural, Hash)]
pub enum Suit {
    Spades,
    Hearts,
    Diamonds,
    Clubs,
}

impl Suit {
    /// The partner suit: the other suit printed in the same colour.
    /// Spades pair with clubs, hearts with diamonds.
    pub open spec fn spec_opposite_color(&self) -> Suit {
        match self {
            Suit::Spades => Suit::Clubs,
            Suit::Hearts => Suit::Diamonds,
            Suit::Diamonds => Suit::Hearts,
            Suit::Clubs => Suit::Spades,
        }
    }

    /// The four suits in their fixed enumeration order.
    pub open spec fn order() -> Seq<Suit> {
        seq![Suit::Spades, Suit::Hearts, Suit::Diamonds, Suit::Clubs]
    }

    /// The place of a suit in the enumeration order, counted from 0.
    pub open spec fn position(&self) -> int {
        match self {
            Suit::Spades => 0,
            Suit::Hearts => 1,
            Suit::Diamonds => 2,
            Suit::Clubs => 3,
        }
    }

    /// Returns the partner suit of `self`.
    #[verifier::when_used_as_spec(spec_opposite_color)]
    pub fn opposite_color(&self) -> (partner: Suit)
        ensures
            partner == self.spec_opposite_color(),
    {
        match self {
            Suit::Spades => Suit::Clubs,
            Suit::Hearts => Suit::Diamonds,
            Suit::Diamonds => Suit::Hearts,
            Suit::Clubs => Suit::Spades,
        }
    }

    /// Returns every suit once, in enumeration order.
    pub fn iter() -> (suits: Vec<Suit>)
        ensures
            suits@ == Suit::order(),
    {
        let mut suits = Vec::new();
        suits.push(Suit::Spades);
        suits.push(Suit::Hearts);
        suits.push(Suit::Diamonds);
        suits.push(Suit::Clubs);
        suits
    }
}

/// The four face ranks, which sit above the pip ranks.
#[derive(Debug, Clone, Copy, PartialEq, Eq, Structural, Hash)]
pub enum Special {
    Jack,
    Queen,
    King,
    Ace,
}

impl Special {
    /// The number a face rank orders by: jack 11, queen 12, king 13, ace 14.
    pub open spec fn rank(&self) -> nat {
        match self {
            Special::Jack => 11,
            Special::Queen => 12,
            Special::King => 13,
            Special::Ace => 14,
        }
    }

    /// The four face ranks in their fixed enumeration order.
    pub open spec fn order() -> Seq<Special> {
        seq![Special::Jack, Special::Queen, Special::King, Special::Ace]
    }

    /// Returns every face rank once, in enumeration order.
    pub fn iter() -> (specials: Vec<Special>)
        ensures
            specials@ == Special::order(),
    {
        let mut specials = Vec::new();
        specials.push(Special::Jack);
        specials.push(Special::Queen);
        specials.push(Special::King);
        specials.push(Special::Ace);
        specials
    }
}

/// Why a card could not be built.
#[derive(Debug, Clone, Copy, PartialEq, Eq, Structural, Hash)]
pub enum CardError {
    /// The pip rank given lies outside 2..=10; the rank is carried along.
    InvalidRank(u8),
}

/// The mathematical content of a card: its printed suit and the number its
/// rank orders by.
pub struct CardView {
    pub suit: Suit,
    pub rank: nat,
}

impl CardView {
    /// A rank that some card can carry: a pip in 2..=10 or a face in 11..=14.
    pub open spec fn well_formed(self) -> bool {
        2 <= self.rank <= 14
    }

    /// A card of rank 11 is a jack.
    pub open spec fn is_jack(self) -> bool {
        self.rank == 11
    }
}

/// A playing card. A card is built once, by `Card::new` or
/// `Card::new_special`, and never changes; its rank always lies in 2..=14.
#[derive(Debug, Clone, Copy, PartialEq, Eq, Structural, Hash)]
pub struct Card {
    suit: Suit,
    rank: u8,
}

impl View for Card {
    type V = CardView;

    closed spec fn view(&self) -> CardView {
        CardView { suit: self.suit, rank: self.rank as nat }
    }
}

impl DeepView for Card {
    type V = CardView;

    open spec fn deep_view(&self) -> CardView {
        self@
    }
}

impl Card {
    /// Every card that executable code can hold carries a rank in 2..=14.
    #[verifier::type_invariant]
    pub open spec fn well_formed(&self) -> bool {
        self@.well_formed()
    }

    /// What `Card::new` owes for a suit and a pip rank: the card of exactly
    /// that suit and rank when the rank lies in 2..=10, and otherwise the
    /// error that names the rejected rank.
    pub open spec fn spec_new(suit: Suit, rank: u8) -> Result<CardView, CardError> {
        if 2 <= rank <= 10 {
            Ok(CardView { suit, rank: rank as nat })
        } else {
            Err(CardError::InvalidRank(rank))
        }
    }

    /// Builds a face card of the given suit.
    pub fn new_special(suit: Suit, special: Special) -> (card: Card)
        ensures
            card@ == (CardView { suit, rank: special.rank() }),
    {
        let rank: u8 = match special {
            Special::Jack => 11,
            Special::Queen => 12,
            Special::King => 13,
            Special::Ace => 14,
        };
        Card { suit, rank }
    }

    /// Builds a pip card. The rank must lie in 2..=10: face cards and the
    /// ace are built by `Card::new_special`.
    pub fn new(suit: Suit, rank: u8) -> (result: Result<Card, CardError>)
        ensures
            match result {
                Ok(card) => Card::spec_new(suit, rank) == Ok::<CardView, CardError>(card@),
                Err(e) => Card::spec_new(suit, rank) == Err::<CardView, CardError>(e),
            },
    {
        if rank < 2 || rank > 10 {
            return Err(CardError::InvalidRank(rank));
        }
        Ok(Card { suit, rank })
    }

    /// Whether the card is a jack.
    pub fn is_jack(&self) -> (jack: bool)
        ensures
            jack == self@.is_jack(),
    {
        self.rank == 11
    }

    /// The printed suit.
    pub fn suit(&self) -> (suit: &Suit)
        ensures
            *suit == self@.suit,
    {
        &self.suit
    }

    /// The number the rank orders by.
    pub fn rank(&self) -> (rank: u8)
        ensures
            rank == self@.rank,
            2 <= rank <= 14,
    {
        proof {
            use_type_invariant(self);
        }
        self.rank
    }

    /// Two cards with the same suit and rank are the same card.
    pub proof fn lemma_view_injective(a: Card, b: Card)
        requires
            a@ == b@,
        ensures
            a == b,
    {
    }
}

} // verus!
