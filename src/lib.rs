//! A number-guessing game: a secret number, the text the player is typing,
//! and the feedback shown after each guess, driven by two kinds of event.

pub mod text;
pub mod game;

pub use game::{GuessingGame, Message};
