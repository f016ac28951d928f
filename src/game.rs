//! The game itself: its state, the events that drive it, and the one
//! transition that consumes an event.

use rand::Rng;
use vstd::prelude::*;
use crate::text::{parsed_u32, read_guess, trimmed};

verus! {

/// The smallest secret a game can draw.
pub const LOWEST_SECRET: u32 = 1;

/// The largest secret a game can draw.
pub const HIGHEST_SECRET: u32 = 100;

/// An event from the window: the text field changed, or the button was pressed.
#[derive(Debug, Clone)]
pub enum Message {
    GuessInputChanged(String),
    GuessButtonPressed,
}

/// What a game is at one moment, as plain values.
pub ghost struct GameView {
    pub secret: u32,
    pub guess: Seq<char>,
    pub message: Seq<char>,
}

/// A secret a game can hold.
pub open spec fn valid_secret(secret: u32) -> bool {
    LOWEST_SECRET <= secret <= HIGHEST_SECRET
}

/// The window's title.
pub open spec fn title_text() -> Seq<char> {
    "Guessing Game"@
}

/// The feedback of a game no guess has been made in yet.
pub open spec fn welcome_text() -> Seq<char> {
    "Welcome to the Guessing Game!"@
}

/// The feedback for text that reads as no number.
pub open spec fn invalid_text() -> Seq<char> {
    "Please enter a valid number."@
}

/// The feedback for a number below the secret.
pub open spec fn too_small_text() -> Seq<char> {
    "Too small!"@
}

/// The feedback for a number above the secret.
pub open spec fn too_big_text() -> Seq<char> {
    "Too big!"@
}

/// The feedback for the secret itself.
pub open spec fn win_text() -> Seq<char> {
    "You win! 🎉"@
}

/// The feedback for a guess that was read as the number `n`.
pub open spec fn verdict(n: u32, secret: u32) -> Seq<char> {
    if n < secret {
        too_small_text()
    } else if n > secret {
        too_big_text()
    } else {
        win_text()
    }
}

/// The game after the text field changed to `text`.
pub open spec fn after_input(g: GameView, text: Seq<char>) -> GameView {
    GameView { secret: g.secret, guess: text, message: g.message }
}

/// The game after the button was pressed: text that is no number leaves the
/// guess as it was and asks for a valid number; a number gets its verdict
/// and empties the text field.
pub open spec fn after_submit(g: GameView) -> GameView {
    match parsed_u32(trimmed(g.guess)) {
        None => GameView { secret: g.secret, guess: g.guess, message: invalid_text() },
        Some(n) => GameView { secret: g.secret, guess: Seq::empty(), message: verdict(n, g.secret) },
    }
}

/// The game after one event.
pub open spec fn after_event(g: GameView, m: Message) -> GameView {
    match m {
        Message::GuessInputChanged(text) => after_input(g, text@),
        Message::GuessButtonPressed => after_submit(g),
    }
}

/// Relies on rand's `thread_rng().gen_range(lo..=hi)`: a number drawn from
/// the closed range `lo..=hi`; it panics on an empty range, which `requires`
/// rules out.
#[verifier::external_body]
fn random_between(lo: u32, hi: u32) -> (r: u32)
    requires
        lo <= hi,
    ensures
        lo <= r <= hi,
{
    rand::thread_rng().gen_range(lo..=hi)
}

/// One game: the secret number, the text in the field, and the feedback.
pub struct GuessingGame {
    secret_number: u32,
    guess: String,
    message: String,
}

impl View for GuessingGame {
    type V = GameView;

    closed spec fn view(&self) -> GameView {
        GameView { secret: self.secret_number, guess: self.guess@, message: self.message@ }
    }
}

impl GuessingGame {
    /// A fresh game whose secret is drawn at random.
    pub fn new() -> (r: GuessingGame)
        ensures
            valid_secret(r@.secret),
            r@.guess == Seq::<char>::empty(),
            r@.message == welcome_text(),
    {
        let secret = random_between(LOWEST_SECRET, HIGHEST_SECRET);
        GuessingGame::with_secret(secret)
    }

    /// A fresh game with the given secret: an empty field and a welcome.
    pub fn with_secret(secret: u32) -> (r: GuessingGame)
        requires
            valid_secret(secret),
        ensures
            r@ == (GameView { secret, guess: Seq::empty(), message: welcome_text() }),
    {
        GuessingGame {
            secret_number: secret,
            guess: String::new(),
            message: String::from_str("Welcome to the Guessing Game!"),
        }
    }

    /// The window's title.
    pub fn title(&self) -> (r: String)
        ensures
            r@ == title_text(),
    {
        String::from_str("Guessing Game")
    }

    /// Consumes one event.
    pub fn update(&mut self, message: Message)
        ensures
            final(self)@ == after_event(old(self)@, message),
            final(self)@.secret == old(self)@.secret,
    {
        match message {
            Message::GuessInputChanged(value) => {
                self.guess = value;
            },
            Message::GuessButtonPressed => {
                let guess: u32 = match read_guess(self.guess.as_str()) {
                    Some(n) => n,
                    None => {
                        self.message = String::from_str("Please enter a valid number.");
                        return;
                    },
                };
                if guess < self.secret_number {
                    self.message = String::from_str("Too small!");
                } else if guess > self.secret_number {
                    self.message = String::from_str("Too big!");
                } else {
                    self.message = String::from_str("You win! 🎉");
                }
                self.guess = String::new();
            },
        }
    }

    /// The secret number.
    pub fn secret_number(&self) -> (r: u32)
        ensures
            r == self@.secret,
    {
        self.secret_number
    }

    /// The text in the field.
    pub fn guess(&self) -> (r: &str)
        ensures
            r@ == self@.guess,
    {
        self.guess.as_str()
    }

    /// The feedback shown to the player.
    pub fn message(&self) -> (r: &str)
        ensures
            r@ == self@.message,
    {
        self.message.as_str()
    }
}

/// A number below the secret is told it is too small, and the field is
/// emptied; the secret stays.
pub proof fn lemma_guess_below_secret(g: GameView, n: u32)
    requires
        valid_secret(g.secret),
        parsed_u32(trimmed(g.guess)) == Some(n),
        n < g.secret,
    ensures
        after_submit(g).message == too_small_text(),
        after_submit(g).guess == Seq::<char>::empty(),
        after_submit(g).secret == g.secret,
{
}

/// A number above the secret is told it is too big, and the field is
/// emptied; the secret stays.
pub proof fn lemma_guess_above_secret(g: GameView, n: u32)
    requires
        valid_secret(g.secret),
        parsed_u32(trimmed(g.guess)) == Some(n),
        n > g.secret,
    ensures
        after_submit(g).message == too_big_text(),
        after_submit(g).guess == Seq::<char>::empty(),
        after_submit(g).secret == g.secret,
{
}

/// The win message comes exactly when the text reads as the secret itself,
/// no other number earns it, and the secret stays after a win.
pub proof fn lemma_only_secret_wins(g: GameView)
    requires
        valid_secret(g.secret),
    ensures
        (after_submit(g).message == win_text()) <==> parsed_u32(trimmed(g.guess)) == Some(g.secret),
        forall|n: u32| #[trigger] verdict(n, g.secret) == win_text() <==> n == g.secret,
        after_submit(g).secret == g.secret,
{
    lemma_feedback_texts_differ();
}

/// Text that reads as no number asks for a valid one and stays in the field.
pub proof fn lemma_invalid_guess_kept(g: GameView)
    requires
        parsed_u32(trimmed(g.guess)) is None,
    ensures
        after_submit(g).message == invalid_text(),
        after_submit(g).guess == g.guess,
        after_submit(g).secret == g.secret,
{
}

/// Setting the field to the same text twice is the same as setting it once.
pub proof fn lemma_input_idempotent(g: GameView, text: Seq<char>)
    ensures
        after_input(after_input(g, text), text) == after_input(g, text),
        after_input(after_input(g, text), text).guess == text,
{
}

/// The win message is none of the other feedback texts.
proof fn lemma_feedback_texts_differ()
    ensures
        win_text() != too_small_text(),
        win_text() != too_big_text(),
        win_text() != invalid_text(),
{
    reveal_strlit("You win! 🎉");
    reveal_strlit("Too small!");
    reveal_strlit("Too big!");
    reveal_strlit("Please enter a valid number.");
    assert(win_text()[0] != too_small_text()[0]);
    assert(win_text().len() != too_big_text().len());
    assert(win_text().len() != invalid_text().len());
}

} // verus!
