//! The deck: the cards not yet drawn in the current game, drawn one at a
//! time without replacement.
use rand::Rng;
use vstd::prelude::*;

use crate::card::{
    lemma_rank_pos_injective,
    lemma_suit_pos_injective,
    rank_pos,
    suit_pos,
    Card,
    Rank,
    Suit,
};

verus! {

/// The number of cards in a full deck: one per rank and suit.
pub const FULL_DECK_SIZE: usize = 52;

/// Why a draw failed.
#[derive(Clone, Copy, Debug, PartialEq, Eq, Structural)]
pub enum DeckError {
    /// The deck holds no card to draw.
    EmptyDeck,
}

/// The place of a card in the order in which `new_full_deck` lays the
/// cards out: by rank, and within a rank by suit.
pub open spec fn card_slot(c: Card) -> int {
    4 * rank_pos(c.rank) + suit_pos(c.suit)
}

/// `after` is `before` with the card `c` taken out: `c` was in `before`, is
/// not in `after`, every other card stays where it was present, and the deck
/// is one card shorter.
pub open spec fn drawn_from(before: Seq<Card>, after: Seq<Card>, c: Card) -> bool {
    &&& before.contains(c)
    &&& !after.contains(c)
    &&& after.len() + 1 == before.len()
    &&& forall|d: Card| d != c ==> (#[trigger] after.contains(d) <==> before.contains(d))
}

/// Relies on rand's `thread_rng().gen_range(0..n)`: for a non-empty range it
/// returns a value inside it, drawn uniformly (it panics on an empty range).
#[verifier::external_body]
fn random_below(n: usize) -> (r: usize)
    requires
        n > 0,
    ensures
        r < n,
{
    rand::thread_rng().gen_range(0..n)
}

/// The cards that have not been drawn yet, each at most once.
pub struct Deck {
    cards: Vec<Card>,
}

impl View for Deck {
    type V = Seq<Card>;

    closed spec fn view(&self) -> Seq<Card> {
        self.cards@
    }
}

/// A full deck: 52 cards, no card twice, every rank and suit present.
pub open spec fn is_full_deck(s: Seq<Card>) -> bool {
    &&& s.len() == FULL_DECK_SIZE
    &&& s.no_duplicates()
    &&& forall|c: Card| #[trigger] s.contains(c)
}

impl Deck {
    /// No card appears twice.
    pub open spec fn wf(&self) -> bool {
        self@.no_duplicates()
    }

    /// A deck of all 52 cards, one per rank and suit.
    pub fn new_full_deck() -> (d: Deck)
        ensures
            d.wf(),
            is_full_deck(d@),
    {
        let mut cards: Vec<Card> = Vec::new();
        let mut r: u8 = 0;
        while r < 13
            invariant
                r <= 13,
                cards@.len() == 4 * r,
                forall|i: int| 0 <= i < cards@.len() ==> card_slot(#[trigger] cards@[i]) == i,
            decreases 13 - r,
        {
            let rank = Rank::from_position(r);
            let mut s: u8 = 0;
            while s < 4
                invariant
                    r < 13,
                    s <= 4,
                    rank_pos(rank) == r,
                    cards@.len() == 4 * r + s,
                    forall|i: int| 0 <= i < cards@.len() ==> card_slot(#[trigger] cards@[i]) == i,
                decreases 4 - s,
            {
                let suit = Suit::from_position(s);
                cards.push(Card { rank, suit });
                s = s + 1;
            }
            r = r + 1;
        }
        let d = Deck { cards };
        proof {
            assert forall|i: int, j: int|
                0 <= i < d@.len() && 0 <= j < d@.len() && i != j implies d@[i] != d@[j] by {
                assert(card_slot(d@[i]) == i);
                assert(card_slot(d@[j]) == j);
            }
            assert forall|c: Card| #[trigger] d@.contains(c) by {
                lemma_rank_pos_injective(c.rank, c.rank);
                lemma_suit_pos_injective(c.suit, c.suit);
                let i = card_slot(c);
                let e = d@[i];
                assert(card_slot(e) == i);
                lemma_rank_pos_injective(c.rank, e.rank);
                lemma_suit_pos_injective(c.suit, e.suit);
                lemma_rank_pos_injective(e.rank, c.rank);
                lemma_suit_pos_injective(e.suit, c.suit);
                assert(e == c);
            }
        }
        d
    }

    /// The number of cards left.
    pub fn len(&self) -> (n: usize)
        ensures
            n == self@.len(),
    {
        self.cards.len()
    }

    /// Whether no card is left.
    pub fn is_empty(&self) -> (b: bool)
        ensures
            b == (self@.len() == 0),
    {
        self.cards.len() == 0
    }

    /// The place of a card in the deck, if it is there.
    pub fn index_of(&self, card: &Card) -> (r: Option<usize>)
        ensures
            r matches Some(i) ==> i < self@.len() && self@[i as int] == *card,
            r is None ==> !self@.contains(*card),
    {
        let mut i: usize = 0;
        while i < self.cards.len()
            invariant
                i <= self.cards@.len(),
                forall|k: int| 0 <= k < i ==> self.cards@[k] != *card,
            decreases self.cards@.len() - i,
        {
            if self.cards[i] == *card {
                return Some(i);
            }
            i = i + 1;
        }
        None
    }

    /// The cards left, in the deck's current order.
    pub fn to_vec(&self) -> (v: Vec<Card>)
        ensures
            v@ == self@,
    {
        let mut v: Vec<Card> = Vec::new();
        let mut i: usize = 0;
        while i < self.cards.len()
            invariant
                i <= self.cards@.len(),
                v@ == self.cards@.subrange(0, i as int),
            decreases self.cards@.len() - i,
        {
            v.push(self.cards[i]);
            i = i + 1;
        }
        proof {
            assert(v@ =~= self.cards@);
        }
        v
    }

    /// A place in the deck, chosen uniformly at random.
    pub fn random_index(&self) -> (i: usize)
        requires
            self@.len() > 0,
        ensures
            i < self@.len(),
    {
        random_below(self.cards.len())
    }

    /// Takes out the card at `index`; the last card moves into its place.
    pub fn draw_at(&mut self, index: usize) -> (c: Card)
        requires
            old(self).wf(),
            index < old(self)@.len(),
        ensures
            final(self).wf(),
            c == old(self)@[index as int],
            final(self)@ == old(self)@.update(index as int, old(self)@.last()).drop_last(),
            drawn_from(old(self)@, final(self)@, c),
    {
        let ghost before = self@;
        let c = self.cards.swap_remove(index);
        let ghost after = self@;
        proof {
            let n = before.len();
            assert(before.contains(c));
            assert forall|k: int| 0 <= k < after.len() implies after[k] != c && before.contains(
                after[k],
            ) by {
                if k == index {
                    assert(after[k] == before[n - 1]);
                } else {
                    assert(after[k] == before[k]);
                }
            }
            assert forall|i: int, j: int|
                0 <= i < after.len() && 0 <= j < after.len() && i != j implies after[i]
                != after[j] by {
                let bi = if i == index { n - 1 } else { i };
                let bj = if j == index { n - 1 } else { j };
                assert(after[i] == before[bi]);
                assert(after[j] == before[bj]);
            }
            assert forall|d: Card| d != c implies (#[trigger] after.contains(d) <==> before.contains(
                d,
            )) by {
                if before.contains(d) {
                    let k = choose|k: int| 0 <= k < n && before[k] == d;
                    if k == n - 1 {
                        assert(after[index as int] == d);
                    } else {
                        assert(k != index);
                        assert(after[k] == d);
                    }
                }
            }
        }
        c
    }

    /// Takes out a card chosen uniformly at random among those left, or fails
    /// with `EmptyDeck`, leaving the deck as it was, when none is left.
    pub fn draw_random(&mut self) -> (r: Result<Card, DeckError>)
        requires
            old(self).wf(),
        ensures
            final(self).wf(),
            r is Err <==> old(self)@.len() == 0,
            r is Err ==> r == Err::<Card, DeckError>(DeckError::EmptyDeck) && final(self)@ == old(
                self,
            )@,
            r matches Ok(c) ==> drawn_from(old(self)@, final(self)@, c),
    {
        if self.cards.len() == 0 {
            return Err(DeckError::EmptyDeck);
        }
        let index = self.random_index();
        Ok(self.draw_at(index))
    }
}

/// `decks[0]`, `decks[1]`, ... are the contents of a deck before each of a
/// run of draws and after the last, and `cards[i]` is the card drawn from
/// `decks[i]`, leaving `decks[i + 1]`.
pub open spec fn draw_sequence(decks: Seq<Seq<Card>>, cards: Seq<Card>) -> bool {
    &&& decks.len() == cards.len() + 1
    &&& forall|i: int|
        0 <= i < cards.len() ==> drawn_from(decks[i], decks[i + 1], #[trigger] cards[i])
}

/// In any run of draws from one deck no card is drawn twice; every card
/// drawn was in the deck at the start and is no longer in it at the end; the
/// deck shrinks by one card per draw and never gains a card.
pub proof fn lemma_draws_never_repeat(decks: Seq<Seq<Card>>, cards: Seq<Card>)
    requires
        draw_sequence(decks, cards),
    ensures
        cards.no_duplicates(),
        decks.last().len() + cards.len() == decks[0].len(),
        forall|i: int|
            0 <= i < cards.len() ==> decks[0].contains(#[trigger] cards[i]) && !decks.last().contains(
                cards[i],
            ),
        forall|c: Card| #[trigger] decks.last().contains(c) ==> decks[0].contains(c),
    decreases cards.len(),
{
    let n = cards.len() as int;
    if n > 0 {
        let dp = decks.drop_last();
        let cp = cards.drop_last();
        assert forall|i: int| 0 <= i < cp.len() implies drawn_from(
            dp[i],
            dp[i + 1],
            #[trigger] cp[i],
        ) by {
            assert(cards[i] == cp[i]);
        }
        lemma_draws_never_repeat(dp, cp);
        let before = decks[n - 1];
        let after = decks[n];
        let c = cards[n - 1];
        assert(drawn_from(before, after, c));
        assert(dp.last() == before);
        assert forall|i: int| 0 <= i < n - 1 implies #[trigger] cards[i] != c && !after.contains(
            cards[i],
        ) by {
            assert(cp[i] == cards[i]);
            assert(!before.contains(cp[i]));
        }
        assert forall|i: int| 0 <= i < n implies decks[0].contains(#[trigger] cards[i])
            && !decks.last().contains(cards[i]) by {
            if i < n - 1 {
                assert(cp[i] == cards[i]);
            }
        }
        assert forall|i: int, j: int|
            0 <= i < cards.len() && 0 <= j < cards.len() && i != j implies cards[i] != cards[j] by {
            if i < n - 1 && j < n - 1 {
                assert(cp[i] == cards[i] && cp[j] == cards[j]);
            }
        }
    }
}

} // verus!
