//! The player's guess, and how a line of input is read as one.
use vstd::prelude::*;
use vstd::string::StrSliceExecFns;

use crate::card::{rank_pos, Card};

verus! {

/// The player's prediction for the next card.
#[derive(Clone, Copy, Debug, PartialEq, Eq, Structural)]
pub enum Guess {
    Higher,
    Lower,
}

/// Why a line of input is not a guess.
#[derive(Clone, Copy, Debug, PartialEq, Eq, Structural)]
pub enum GuessError {
    /// The line is not a single `H` or `L`, in either case.
    InvalidInput,
}

/// What `str::trim` leaves of a line: the line without its leading and
/// trailing whitespace.
pub uninterp spec fn trimmed(s: Seq<char>) -> Seq<char>;

/// Relies on `str::trim`, whose result depends on the characters alone.
#[verifier::external_body]
fn trim_line<'a>(s: &'a str) -> (r: &'a str)
    ensures
        r@ == trimmed(s@),
{
    s.trim()
}

/// The guess that a line without surrounding whitespace stands for: a single
/// `h` or `H` is `Higher`, a single `l` or `L` is `Lower`, anything else is
/// invalid.
pub open spec fn guess_of(t: Seq<char>) -> Result<Guess, GuessError> {
    if t.len() == 1 && (t[0] == 'h' || t[0] == 'H') {
        Ok(Guess::Higher)
    } else if t.len() == 1 && (t[0] == 'l' || t[0] == 'L') {
        Ok(Guess::Lower)
    } else {
        Err(GuessError::InvalidInput)
    }
}

/// Whether `guess` was right about `next` following `previous`: the rank
/// must be strictly higher, or strictly lower; an equal rank is never right.
pub open spec fn guess_correct(guess: Guess, next: Card, previous: Card) -> bool {
    match guess {
        Guess::Higher => rank_pos(next.rank) > rank_pos(previous.rank),
        Guess::Lower => rank_pos(next.rank) < rank_pos(previous.rank),
    }
}

/// Reads a line that has already been trimmed as a guess.
pub fn parse_trimmed(t: &str) -> (r: Result<Guess, GuessError>)
    ensures
        r == guess_of(t@),
{
    if t.unicode_len() != 1 {
        return Err(GuessError::InvalidInput);
    }
    let c = t.get_char(0);
    if c == 'h' || c == 'H' {
        Ok(Guess::Higher)
    } else if c == 'l' || c == 'L' {
        Ok(Guess::Lower)
    } else {
        Err(GuessError::InvalidInput)
    }
}

/// Reads a line of input as a guess, ignoring surrounding whitespace and case.
pub fn parse_guess(line: &str) -> (r: Result<Guess, GuessError>)
    ensures
        r == guess_of(trimmed(line@)),
{
    parse_trimmed(trim_line(line))
}

/// Whether `guess` was right about the card `new` following `previous`.
pub fn correct(guess: &Guess, new: &Card, previous: &Card) -> (b: bool)
    ensures
        b == guess_correct(*guess, *new, *previous),
{
    match guess {
        Guess::Higher => new.rank.position() > previous.rank.position(),
        Guess::Lower => new.rank.position() < previous.rank.position(),
    }
}

/// A guess is never right when the next card has the same rank as the
/// previous one, whether it said higher or lower.
pub proof fn lemma_tie_never_correct(next: Card, previous: Card)
    requires
        next.rank == previous.rank,
    ensures
        !guess_correct(Guess::Higher, next, previous),
        !guess_correct(Guess::Lower, next, previous),
{
}

} // verus!
