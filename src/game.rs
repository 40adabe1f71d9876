//! The round state machine: the previous card, the count of correct
//! guesses, and when the game is won or lost.
use vstd::prelude::*;

use crate::card::Card;
use crate::deck::{drawn_from, Deck};
use crate::guess::{correct, guess_correct, Guess};

verus! {

/// Correct guesses in a row that win the game.
pub const ROUNDS_TO_WIN: u8 = 5;

/// Where a game stands.
#[derive(Clone, Copy, Debug, PartialEq, Eq, Structural)]
pub enum Status {
    /// Waiting for the next guess.
    Playing,
    /// Enough correct guesses were made; the game is over.
    Won,
    /// A guess was wrong; the game is over.
    Lost,
}

/// The state after one round, from the number of correct guesses so far and
/// whether this round's guess was right.
pub open spec fn step(rounds: nat, right: bool) -> (nat, Status) {
    if !right {
        (rounds, Status::Lost)
    } else if rounds + 1 == ROUNDS_TO_WIN as nat {
        (rounds + 1, Status::Won)
    } else {
        (rounds + 1, Status::Playing)
    }
}

/// The state reached from the start of a game when the rounds' guesses are
/// right or wrong as `results` says; rounds after the game ended are ignored.
pub open spec fn run(results: Seq<bool>) -> (nat, Status)
    decreases results.len(),
{
    if results.len() == 0 {
        (0, Status::Playing)
    } else {
        let (rounds, status) = run(results.drop_last());
        if status == Status::Playing {
            step(rounds, results.last())
        } else {
            (rounds, status)
        }
    }
}

/// How many times a game played as `results` says goes from `Playing` to an
/// end, that is, how many closing banners (win or loss) it shows.
pub open spec fn banners(results: Seq<bool>) -> nat
    decreases results.len(),
{
    if results.len() == 0 {
        0
    } else {
        let ended_now = run(results.drop_last()).1 == Status::Playing && run(results).1
            != Status::Playing;
        banners(results.drop_last()) + if ended_now {
            1nat
        } else {
            0nat
        }
    }
}

/// A game never counts more than five correct guesses; it shows a closing
/// banner at most once, and exactly once as soon as it has ended; it is won
/// exactly when five correct guesses were counted; and after five rounds it
/// has always ended.
pub proof fn lemma_one_closing_banner(results: Seq<bool>)
    ensures
        run(results).0 <= ROUNDS_TO_WIN,
        banners(results) <= 1,
        banners(results) == 1 <==> run(results).1 != Status::Playing,
        run(results).1 == Status::Won <==> run(results).0 == ROUNDS_TO_WIN,
        run(results).1 == Status::Playing ==> run(results).0 == results.len(),
        results.len() >= ROUNDS_TO_WIN ==> run(results).1 != Status::Playing && banners(results)
            == 1,
    decreases results.len(),
{
    if results.len() > 0 {
        lemma_one_closing_banner(results.drop_last());
    }
}

/// What a game holds: the cards left, the previous card, the number of
/// correct guesses so far, and where the game stands.
pub struct GameView {
    pub deck: Seq<Card>,
    pub previous: Card,
    pub rounds: nat,
    pub status: Status,
}

/// A game of higher or lower.
pub struct Game {
    deck: Deck,
    previous: Card,
    rounds: u8,
    status: Status,
}

impl View for Game {
    type V = GameView;

    closed spec fn view(&self) -> GameView {
        GameView {
            deck: self.deck@,
            previous: self.previous,
            rounds: self.rounds as nat,
            status: self.status,
        }
    }
}

impl Game {
    /// No card is twice in the deck, the previous card is not in it, at most
    /// five correct guesses are counted, the game is won exactly at five, and
    /// while it is played enough cards are left for the remaining rounds.
    pub open spec fn wf(&self) -> bool {
        &&& self@.deck.no_duplicates()
        &&& !self@.deck.contains(self@.previous)
        &&& self@.rounds <= ROUNDS_TO_WIN
        &&& (self@.status == Status::Won <==> self@.rounds == ROUNDS_TO_WIN)
        &&& self@.status == Status::Playing ==> self@.deck.len() + self@.rounds >= ROUNDS_TO_WIN
    }

    /// Starts a game on `deck`, with the card at `first` as the first card.
    /// A game draws at most six cards, so the deck must hold more than five.
    pub fn from_deck(deck: Deck, first: usize) -> (g: Game)
        requires
            deck.wf(),
            first < deck@.len(),
            deck@.len() > ROUNDS_TO_WIN,
        ensures
            g.wf(),
            g@.previous == deck@[first as int],
            g@.deck == deck@.update(first as int, deck@.last()).drop_last(),
            drawn_from(deck@, g@.deck, g@.previous),
            g@.rounds == 0,
            g@.status == Status::Playing,
    {
        let mut deck = deck;
        let previous = deck.draw_at(first);
        Game { deck, previous, rounds: 0, status: Status::Playing }
    }

    /// Starts a game on a full deck, with a first card drawn at random.
    pub fn new() -> (g: Game)
        ensures
            g.wf(),
            g@.deck.len() == 51,
            forall|c: Card| #[trigger] g@.deck.contains(c) <==> c != g@.previous,
            g@.rounds == 0,
            g@.status == Status::Playing,
    {
        let deck = Deck::new_full_deck();
        let first = deck.random_index();
        Game::from_deck(deck, first)
    }

    /// Plays one round with the card at `index` of the deck as the next
    /// card: a right guess makes it the previous card and counts one more
    /// correct guess, winning at five; a wrong one loses the game.
    pub fn play_round_at(&mut self, guess: Guess, index: usize) -> (r: (Card, Status))
        requires
            old(self).wf(),
            old(self)@.status == Status::Playing,
            index < old(self)@.deck.len(),
        ensures
            final(self).wf(),
            r.0 == old(self)@.deck[index as int],
            r.1 == final(self)@.status,
            final(self)@.deck == old(self)@.deck.update(index as int, old(self)@.deck.last()).drop_last(),
            drawn_from(old(self)@.deck, final(self)@.deck, r.0),
            (final(self)@.rounds, final(self)@.status) == step(
                old(self)@.rounds,
                guess_correct(guess, r.0, old(self)@.previous),
            ),
            final(self)@.previous == if guess_correct(guess, r.0, old(self)@.previous) {
                r.0
            } else {
                old(self)@.previous
            },
    {
        let next = self.deck.draw_at(index);
        if correct(&guess, &next, &self.previous) {
            self.previous = next;
            self.rounds = self.rounds + 1;
            if self.rounds == ROUNDS_TO_WIN {
                self.status = Status::Won;
            }
        } else {
            self.status = Status::Lost;
        }
        (next, self.status)
    }

    /// Plays one round with a next card drawn at random from the deck.
    pub fn play_round(&mut self, guess: Guess) -> (r: (Card, Status))
        requires
            old(self).wf(),
            old(self)@.status == Status::Playing,
        ensures
            final(self).wf(),
            r.1 == final(self)@.status,
            drawn_from(old(self)@.deck, final(self)@.deck, r.0),
            (final(self)@.rounds, final(self)@.status) == step(
                old(self)@.rounds,
                guess_correct(guess, r.0, old(self)@.previous),
            ),
            final(self)@.previous == if guess_correct(guess, r.0, old(self)@.previous) {
                r.0
            } else {
                old(self)@.previous
            },
    {
        let index = self.deck.random_index();
        self.play_round_at(guess, index)
    }

    /// The previous card: the first card, or the last one guessed right.
    pub fn previous(&self) -> (c: Card)
        ensures
            c == self@.previous,
    {
        self.previous
    }

    /// The number of correct guesses so far.
    pub fn rounds(&self) -> (n: u8)
        ensures
            n == self@.rounds,
    {
        self.rounds
    }

    /// Where the game stands.
    pub fn status(&self) -> (s: Status)
        ensures
            s == self@.status,
    {
        self.status
    }

    /// The cards left.
    pub fn deck(&self) -> (d: &Deck)
        ensures
            d@ == self@.deck,
    {
        &self.deck
    }

    /// The number of cards left in the deck.
    pub fn cards_left(&self) -> (n: usize)
        ensures
            n == self@.deck.len(),
    {
        self.deck.len()
    }
}

} // verus!
