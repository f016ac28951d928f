use guessing_game::game::{HIGHEST_SECRET, LOWEST_SECRET};
use guessing_game::{GuessingGame, Message};

fn guess_with(game: &mut GuessingGame, text: &str) {
    game.update(Message::GuessInputChanged(text.to_string()));
    game.update(Message::GuessButtonPressed);
}

#[test]
fn fresh_game_welcomes() {
    let game = GuessingGame::with_secret(50);
    assert_eq!(game.message(), "Welcome to the Guessing Game!");
    assert_eq!(game.guess(), "");
    assert_eq!(game.secret_number(), 50);
}

#[test]
fn random_secret_is_in_range() {
    for _ in 0..200 {
        let game = GuessingGame::new();
        let s = game.secret_number();
        assert!(LOWEST_SECRET <= s && s <= HIGHEST_SECRET);
        assert_eq!(game.message(), "Welcome to the Guessing Game!");
        assert_eq!(game.guess(), "");
    }
}

#[test]
fn title_is_fixed() {
    let game = GuessingGame::with_secret(7);
    assert_eq!(game.title(), "Guessing Game");
}

#[test]
fn scenario_secret_fifty() {
    let mut game = GuessingGame::with_secret(50);
    guess_with(&mut game, "10");
    assert_eq!(game.message(), "Too small!");
    assert_eq!(game.guess(), "");
    guess_with(&mut game, "90");
    assert_eq!(game.message(), "Too big!");
    assert_eq!(game.guess(), "");
    guess_with(&mut game, "50");
    assert_eq!(game.message(), "You win! 🎉");
    assert_eq!(game.guess(), "");
    guess_with(&mut game, "foo");
    assert_eq!(game.message(), "Please enter a valid number.");
    assert_eq!(game.guess(), "foo");
}

#[test]
fn every_low_guess_is_too_small() {
    for secret in 1..=100u32 {
        for g in 0..secret {
            let mut game = GuessingGame::with_secret(secret);
            guess_with(&mut game, &g.to_string());
            assert_eq!(game.message(), "Too small!");
            assert_eq!(game.guess(), "");
        }
    }
}

#[test]
fn every_high_guess_is_too_big() {
    for secret in 1..=100u32 {
        for g in (secret + 1)..=150 {
            let mut game = GuessingGame::with_secret(secret);
            guess_with(&mut game, &g.to_string());
            assert_eq!(game.message(), "Too big!");
            assert_eq!(game.guess(), "");
        }
        let mut game = GuessingGame::with_secret(secret);
        guess_with(&mut game, "4294967295");
        assert_eq!(game.message(), "Too big!");
    }
}

#[test]
fn only_the_secret_wins_and_it_stays() {
    for secret in 1..=100u32 {
        let mut game = GuessingGame::with_secret(secret);
        let mut wins = 0;
        for g in 0..=120u32 {
            guess_with(&mut game, &g.to_string());
            if game.message() == "You win! 🎉" {
                wins += 1;
                assert_eq!(g, secret);
            }
            assert_eq!(game.secret_number(), secret);
        }
        assert_eq!(wins, 1);
        guess_with(&mut game, &secret.to_string());
        assert_eq!(game.message(), "You win! 🎉");
        assert_eq!(game.secret_number(), secret);
    }
}

#[test]
fn non_numeric_text_is_rejected_and_kept() {
    for text in ["abc", "", "12.5", "-5", "+", "1_000", "4294967296", "1 2"] {
        let mut game = GuessingGame::with_secret(50);
        game.update(Message::GuessButtonPressed);
        guess_with(&mut game, text);
        assert_eq!(game.message(), "Please enter a valid number.");
        assert_eq!(game.guess(), text);
        assert_eq!(game.secret_number(), 50);
    }
}

#[test]
fn invalid_text_after_a_verdict_replaces_it() {
    let mut game = GuessingGame::with_secret(50);
    guess_with(&mut game, "10");
    assert_eq!(game.message(), "Too small!");
    guess_with(&mut game, "ten");
    assert_eq!(game.message(), "Please enter a valid number.");
    assert_eq!(game.guess(), "ten");
}

#[test]
fn white_space_and_plus_sign_are_accepted() {
    let mut game = GuessingGame::with_secret(50);
    guess_with(&mut game, "  50\n");
    assert_eq!(game.message(), "You win! 🎉");
    assert_eq!(game.guess(), "");
    guess_with(&mut game, "+49");
    assert_eq!(game.message(), "Too small!");
    guess_with(&mut game, "\t051 ");
    assert_eq!(game.message(), "Too big!");
}

#[test]
fn repeated_input_keeps_last_text() {
    let mut game = GuessingGame::with_secret(50);
    game.update(Message::GuessInputChanged("42".to_string()));
    game.update(Message::GuessInputChanged("42".to_string()));
    assert_eq!(game.guess(), "42");
    assert_eq!(game.message(), "Welcome to the Guessing Game!");
    game.update(Message::GuessInputChanged("7".to_string()));
    assert_eq!(game.guess(), "7");
}

#[test]
fn input_change_leaves_message() {
    let mut game = GuessingGame::with_secret(50);
    guess_with(&mut game, "90");
    game.update(Message::GuessInputChanged("x".to_string()));
    assert_eq!(game.message(), "Too big!");
    assert_eq!(game.guess(), "x");
}
