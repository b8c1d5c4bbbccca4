//! The number guessing game: a secret between 1 and 100, and the answer to
//! each line that the player types.

use vstd::prelude::*;
use vstd::string::*;
use crate::text::{parse_trimmed_u32, parse_unsigned, trimmed};

verus! {

/// The lowest secret the game picks.
pub const SECRET_LOW: u32 = 1;

/// The highest secret the game picks.
pub const SECRET_HIGH: u32 = 100;

/// How a guess compares with the secret.
#[derive(PartialEq, Eq, Structural, Clone, Copy, Debug)]
pub enum GuessOutcome {
    TooBig,
    TooSmall,
    Win,
}

/// The game's answer to one line of input.
#[derive(PartialEq, Eq, Structural, Clone, Copy, Debug)]
pub enum GuessReply {
    /// The line, trimmed, is not a `u32`; the game goes on.
    NotANumber,
    TooBig,
    TooSmall,
    /// The guess is the secret; the game is over.
    Win,
}

pub open spec fn outcome_of(guess: int, secret: int) -> GuessOutcome {
    if guess > secret {
        GuessOutcome::TooBig
    } else if guess < secret {
        GuessOutcome::TooSmall
    } else {
        GuessOutcome::Win
    }
}

/// Compares a guess with the secret.
pub fn compare_guess(guess: u32, secret: u32) -> (o: GuessOutcome)
    ensures
        o == outcome_of(guess as int, secret as int),
{
    if guess > secret {
        GuessOutcome::TooBig
    } else if guess < secret {
        GuessOutcome::TooSmall
    } else {
        GuessOutcome::Win
    }
}

/// The number a line of input holds: the line without surrounding
/// whitespace, read as a `u32`.
pub fn read_guess(line: &str) -> (r: Option<u32>)
    ensures
        match r {
            Some(x) => parse_unsigned(trimmed(line@), u32::MAX as nat) == Some(x as nat),
            None => parse_unsigned(trimmed(line@), u32::MAX as nat) is None,
        },
{
    parse_trimmed_u32(line)
}

/// Calls `rand::random_range(low..=high)`, which draws a value of the
/// inclusive range from the thread-local generator (and panics only on an
/// empty range). Which value comes is left open.
#[verifier::external_body]
fn random_in_range(low: u32, high: u32) -> (n: u32)
    requires
        low <= high,
    ensures
        low <= n <= high,
{
    rand::random_range(low..=high)
}

/// One round of the game.
pub struct GuessGame {
    secret: u32,
    won: bool,
}

/// The answer that `line` gets from a game whose secret is `secret`.
pub open spec fn reply_to(secret: u32, line: Seq<char>) -> GuessReply {
    match parse_unsigned(trimmed(line), u32::MAX as nat) {
        None => GuessReply::NotANumber,
        Some(g) => match outcome_of(g as int, secret as int) {
            GuessOutcome::TooBig => GuessReply::TooBig,
            GuessOutcome::TooSmall => GuessReply::TooSmall,
            GuessOutcome::Win => GuessReply::Win,
        },
    }
}

impl GuessGame {
    pub closed spec fn spec_secret(&self) -> u32 {
        self.secret
    }

    pub closed spec fn spec_won(&self) -> bool {
        self.won
    }

    /// A game with a secret drawn at random between `SECRET_LOW` and
    /// `SECRET_HIGH`.
    pub fn new() -> (g: GuessGame)
        ensures
            SECRET_LOW <= g.spec_secret() <= SECRET_HIGH,
            !g.spec_won(),
    {
        let secret = random_in_range(SECRET_LOW, SECRET_HIGH);
        GuessGame::with_secret(secret)
    }

    /// A game with the given secret.
    pub fn with_secret(secret: u32) -> (g: GuessGame)
        ensures
            g.spec_secret() == secret,
            !g.spec_won(),
    {
        GuessGame { secret, won: false }
    }

    pub fn secret(&self) -> (s: u32)
        ensures
            s == self.spec_secret(),
    {
        self.secret
    }

    /// Whether the secret has been guessed.
    pub fn is_over(&self) -> (b: bool)
        ensures
            b == self.spec_won(),
    {
        self.won
    }

    /// Answers one line of input; the game is over once a line guesses the
    /// secret, and only then.
    pub fn guess(&mut self, line: &str) -> (reply: GuessReply)
        ensures
            reply == reply_to(old(self).spec_secret(), line@),
            final(self).spec_secret() == old(self).spec_secret(),
            final(self).spec_won() == (old(self).spec_won() || reply == GuessReply::Win),
    {
        match read_guess(line) {
            None => GuessReply::NotANumber,
            Some(g) => {
                let r = match compare_guess(g, self.secret) {
                    GuessOutcome::TooBig => GuessReply::TooBig,
                    GuessOutcome::TooSmall => GuessReply::TooSmall,
                    GuessOutcome::Win => GuessReply::Win,
                };
                if r == GuessReply::Win {
                    self.won = true;
                }
                r
            },
        }
    }
}

impl GuessReply {
    /// The line that the game prints for this reply.
    pub fn message(&self) -> (s: String)
        ensures
            s@ == match self {
                GuessReply::NotANumber => "Please type a number!"@,
                GuessReply::TooBig => "Too big!"@,
                GuessReply::TooSmall => "Too small!"@,
                GuessReply::Win => "You win!"@,
            },
    {
        match self {
            GuessReply::NotANumber => String::from_str("Please type a number!"),
            GuessReply::TooBig => String::from_str("Too big!"),
            GuessReply::TooSmall => String::from_str("Too small!"),
            GuessReply::Win => String::from_str("You win!"),
        }
    }
}


/// A line wins exactly when it reads as the secret; every other number is
/// either too big or too small, on the side where it lies.
pub proof fn law_win_iff_secret(secret: u32, line: Seq<char>)
    ensures
        reply_to(secret, line) == GuessReply::Win <==> parse_unsigned(
            trimmed(line),
            u32::MAX as nat,
        ) == Some(secret as nat),
        parse_unsigned(trimmed(line), u32::MAX as nat) matches Some(g) ==> (reply_to(secret, line)
            == GuessReply::TooBig <==> g > secret),
        parse_unsigned(trimmed(line), u32::MAX as nat) matches Some(g) ==> (reply_to(secret, line)
            == GuessReply::TooSmall <==> g < secret),
        parse_unsigned(trimmed(line), u32::MAX as nat) is None <==> reply_to(secret, line)
            == GuessReply::NotANumber,
{
}

} // verus!
