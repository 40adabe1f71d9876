//! A single-player "higher or lower" card game: a 52-card deck drawn
//! without replacement, a rank comparison rule, a guess parser, and the
//! round state machine that decides when a game is won or lost.
pub mod card;
pub mod deck;
pub mod guess;
pub mod game;
