//! Suits, ranks and cards, with the rank ordering and the display text.
use vstd::prelude::*;
use vstd::string::StringExecFns;

verus! {

/// One of the four suits. Suits carry no order; they only tell cards apart.
#[derive(Clone, Copy, Debug, PartialEq, Eq, Structural)]
pub enum Suit {
    Spades,
    Clubs,
    Diamonds,
    Hearts,
}

/// One of the thirteen ranks, from Two (lowest) up to Ace (highest).
#[derive(Clone, Copy, Debug, PartialEq, Eq, Structural)]
pub enum Rank {
    Two,
    Three,
    Four,
    Five,
    Six,
    Seven,
    Eight,
    Nine,
    Ten,
    Jack,
    Queen,
    King,
    Ace,
}

/// The result of comparing two values.
#[derive(Clone, Copy, Debug, PartialEq, Eq, Structural)]
pub enum Comparison {
    Less,
    Equal,
    Greater,
}

/// A playing card. Two cards are equal when rank and suit both match.
#[derive(Clone, Copy, Debug, PartialEq, Eq, Structural)]
pub struct Card {
    pub rank: Rank,
    pub suit: Suit,
}

/// The position of a rank in the order Two < Three < ... < King < Ace.
pub open spec fn rank_pos(r: Rank) -> int {
    match r {
        Rank::Two => 0,
        Rank::Three => 1,
        Rank::Four => 2,
        Rank::Five => 3,
        Rank::Six => 4,
        Rank::Seven => 5,
        Rank::Eight => 6,
        Rank::Nine => 7,
        Rank::Ten => 8,
        Rank::Jack => 9,
        Rank::Queen => 10,
        Rank::King => 11,
        Rank::Ace => 12,
    }
}

/// The position of a suit in the order Spades, Clubs, Diamonds, Hearts.
pub open spec fn suit_pos(s: Suit) -> int {
    match s {
        Suit::Spades => 0,
        Suit::Clubs => 1,
        Suit::Diamonds => 2,
        Suit::Hearts => 3,
    }
}

/// Three-way comparison of two integers.
pub open spec fn compare_ints(a: int, b: int) -> Comparison {
    if a < b {
        Comparison::Less
    } else if a == b {
        Comparison::Equal
    } else {
        Comparison::Greater
    }
}

/// The display name of a rank: a word for the court cards and the ace,
/// the numeral for the others.
pub open spec fn rank_name(r: Rank) -> Seq<char> {
    match r {
        Rank::Two => "2"@,
        Rank::Three => "3"@,
        Rank::Four => "4"@,
        Rank::Five => "5"@,
        Rank::Six => "6"@,
        Rank::Seven => "7"@,
        Rank::Eight => "8"@,
        Rank::Nine => "9"@,
        Rank::Ten => "10"@,
        Rank::Jack => "Jack"@,
        Rank::Queen => "Queen"@,
        Rank::King => "King"@,
        Rank::Ace => "Ace"@,
    }
}

/// The display name of a suit, in lower case.
pub open spec fn suit_name(s: Suit) -> Seq<char> {
    match s {
        Suit::Spades => "spades"@,
        Suit::Clubs => "clubs"@,
        Suit::Diamonds => "diamonds"@,
        Suit::Hearts => "hearts"@,
    }
}

/// The display text of a card: `"<rank> of <suit>"`.
pub open spec fn card_text(c: Card) -> Seq<char> {
    rank_name(c.rank) + " of "@ + suit_name(c.suit)
}

/// A rank is determined by its position.
pub proof fn lemma_rank_pos_injective(a: Rank, b: Rank)
    ensures
        0 <= rank_pos(a) < 13,
        rank_pos(a) == rank_pos(b) ==> a == b,
{
}

/// A suit is determined by its position.
pub proof fn lemma_suit_pos_injective(a: Suit, b: Suit)
    ensures
        0 <= suit_pos(a) < 4,
        suit_pos(a) == suit_pos(b) ==> a == b,
{
}

/// Comparing two ranks gives `Greater` exactly when the first stands strictly
/// after the second in the order Two < ... < Ace, and two different ranks
/// never compare `Equal`.
pub proof fn lemma_rank_compare(a: Rank, b: Rank)
    ensures
        (compare_ints(rank_pos(a), rank_pos(b)) == Comparison::Greater) <==> rank_pos(a) > rank_pos(
            b,
        ),
        (compare_ints(rank_pos(a), rank_pos(b)) == Comparison::Less) <==> rank_pos(a) < rank_pos(
            b,
        ),
        a != b ==> compare_ints(rank_pos(a), rank_pos(b)) != Comparison::Equal,
{
    lemma_rank_pos_injective(a, b);
}

impl Rank {
    /// The position of this rank in the order, Two being 0 and Ace 12.
    pub fn position(&self) -> (r: u8)
        ensures
            r == rank_pos(*self),
    {
        match self {
            Rank::Two => 0,
            Rank::Three => 1,
            Rank::Four => 2,
            Rank::Five => 3,
            Rank::Six => 4,
            Rank::Seven => 5,
            Rank::Eight => 6,
            Rank::Nine => 7,
            Rank::Ten => 8,
            Rank::Jack => 9,
            Rank::Queen => 10,
            Rank::King => 11,
            Rank::Ace => 12,
        }
    }

    /// Compares two ranks by their position in the order Two < ... < Ace.
    pub fn compare(&self, other: &Rank) -> (r: Comparison)
        ensures
            r == compare_ints(rank_pos(*self), rank_pos(*other)),
    {
        let a = self.position();
        let b = other.position();
        if a < b {
            Comparison::Less
        } else if a == b {
            Comparison::Equal
        } else {
            Comparison::Greater
        }
    }

    /// The display name of this rank.
    pub fn name(&self) -> (r: &'static str)
        ensures
            r@ == rank_name(*self),
    {
        match self {
            Rank::Two => "2",
            Rank::Three => "3",
            Rank::Four => "4",
            Rank::Five => "5",
            Rank::Six => "6",
            Rank::Seven => "7",
            Rank::Eight => "8",
            Rank::Nine => "9",
            Rank::Ten => "10",
            Rank::Jack => "Jack",
            Rank::Queen => "Queen",
            Rank::King => "King",
            Rank::Ace => "Ace",
        }
    }
}

impl Rank {
    /// The rank at a given position of the order, Two being 0 and Ace 12.
    pub fn from_position(p: u8) -> (r: Rank)
        requires
            p < 13,
        ensures
            rank_pos(r) == p,
    {
        match p {
            0 => Rank::Two,
            1 => Rank::Three,
            2 => Rank::Four,
            3 => Rank::Five,
            4 => Rank::Six,
            5 => Rank::Seven,
            6 => Rank::Eight,
            7 => Rank::Nine,
            8 => Rank::Ten,
            9 => Rank::Jack,
            10 => Rank::Queen,
            11 => Rank::King,
            _ => Rank::Ace,
        }
    }
}

impl Suit {
    /// The suit at a given position of the order Spades, Clubs, Diamonds, Hearts.
    pub fn from_position(p: u8) -> (r: Suit)
        requires
            p < 4,
        ensures
            suit_pos(r) == p,
    {
        match p {
            0 => Suit::Spades,
            1 => Suit::Clubs,
            2 => Suit::Diamonds,
            _ => Suit::Hearts,
        }
    }

    /// The display name of this suit, in lower case.
    pub fn name(&self) -> (r: &'static str)
        ensures
            r@ == suit_name(*self),
    {
        match self {
            Suit::Spades => "spades",
            Suit::Clubs => "clubs",
            Suit::Diamonds => "diamonds",
            Suit::Hearts => "hearts",
        }
    }
}

impl Card {
    /// Compares two cards by rank alone; the suit plays no part.
    pub fn compare(&self, other: &Card) -> (r: Comparison)
        ensures
            r == compare_ints(rank_pos(self.rank), rank_pos(other.rank)),
    {
        self.rank.compare(&other.rank)
    }

    /// The display text of this card, such as `"Jack of spades"`.
    pub fn display(&self) -> (r: String)
        ensures
            r@ == card_text(*self),
    {
        let mut s = String::from_str(self.rank.name());
        s.append(" of ");
        s.append(self.suit.name());
        s
    }
}

} // verus!
