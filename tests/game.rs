use higher_or_lower::card::{Card, Rank, Suit};
use higher_or_lower::deck::Deck;
use higher_or_lower::game::{Game, Status, ROUNDS_TO_WIN};
use higher_or_lower::guess::Guess;

fn game_starting_with(first: Card) -> Game {
    let deck = Deck::new_full_deck();
    let i = deck.index_of(&first).unwrap();
    Game::from_deck(deck, i)
}

fn play(game: &mut Game, guess: Guess, next: Card) -> (Card, Status) {
    let i = game.deck().index_of(&next).unwrap();
    game.play_round_at(guess, i)
}

#[test]
fn five_right_guesses_win_once() {
    let seven = Card { rank: Rank::Seven, suit: Suit::Hearts };
    let mut game = game_starting_with(seven);
    assert_eq!(game.previous(), seven);
    assert_eq!(game.status(), Status::Playing);
    let nexts = [
        Card { rank: Rank::Eight, suit: Suit::Clubs },
        Card { rank: Rank::Nine, suit: Suit::Spades },
        Card { rank: Rank::Ten, suit: Suit::Diamonds },
        Card { rank: Rank::Jack, suit: Suit::Hearts },
        Card { rank: Rank::Queen, suit: Suit::Clubs },
    ];
    let mut ends = 0;
    for (k, next) in nexts.iter().enumerate() {
        let (drawn, status) = play(&mut game, Guess::Higher, *next);
        assert_eq!(drawn, *next);
        assert_eq!(game.rounds() as usize, k + 1);
        assert_eq!(game.previous(), *next);
        if status != Status::Playing {
            ends += 1;
            assert_eq!(k, 4);
        }
        assert_ne!(status, Status::Lost);
    }
    assert_eq!(ends, 1);
    assert_eq!(game.status(), Status::Won);
    assert_eq!(game.rounds(), ROUNDS_TO_WIN);
    assert_eq!(game.cards_left(), 46);
}

#[test]
fn wrong_guess_loses_at_once() {
    let king = Card { rank: Rank::King, suit: Suit::Clubs };
    let two = Card { rank: Rank::Two, suit: Suit::Spades };
    let mut game = game_starting_with(king);
    let (drawn, status) = play(&mut game, Guess::Higher, two);
    assert_eq!(drawn, two);
    assert_eq!(status, Status::Lost);
    assert_eq!(game.status(), Status::Lost);
    assert_eq!(game.rounds(), 0);
    assert_eq!(game.previous(), king);
}

#[test]
fn tie_loses_either_way() {
    for guess in [Guess::Higher, Guess::Lower] {
        let mut game = game_starting_with(Card { rank: Rank::Five, suit: Suit::Hearts });
        let (_, status) = play(&mut game, guess, Card { rank: Rank::Five, suit: Suit::Spades });
        assert_eq!(status, Status::Lost);
    }
}

#[test]
fn new_game_draws_one_card() {
    let game = Game::new();
    assert_eq!(game.cards_left(), 51);
    assert_eq!(game.rounds(), 0);
    assert_eq!(game.status(), Status::Playing);
    assert!(game.deck().index_of(&game.previous()).is_none());
}

#[test]
fn random_games_end_within_five_rounds_with_one_ending() {
    for _ in 0..200 {
        let mut game = Game::new();
        let mut played = 0;
        let mut ends = 0;
        while game.status() == Status::Playing {
            let guess = if game.previous().rank.position() < 6 { Guess::Higher } else { Guess::Lower };
            let (drawn, status) = game.play_round(guess);
            played += 1;
            assert!(game.deck().index_of(&drawn).is_none());
            assert!(game.rounds() <= ROUNDS_TO_WIN);
            if status != Status::Playing {
                ends += 1;
            }
        }
        assert!(played <= 5);
        assert_eq!(ends, 1);
        assert_eq!(game.status() == Status::Won, game.rounds() == ROUNDS_TO_WIN);
        assert_eq!(game.cards_left(), 51 - played);
    }
}
