use vstd::prelude::*;

use crate::number::{decimal_of, parse_line, trimmed};

verus! {

/// The smallest secret a game may have.
pub const LOWEST_SECRET: u32 = 1;

/// The largest secret a game may have.
pub const HIGHEST_SECRET: u32 = 100;

/// What a game says to one line of input.
#[derive(Clone, Copy, Debug, PartialEq, Eq, Structural)]
pub enum Verdict {
    /// The line is no number: nothing was compared.
    Invalid,
    /// The guess is below the secret.
    TooSmall,
    /// The guess is above the secret.
    TooBig,
    /// The guess is the secret: the game is over.
    Win,
}

/// The verdict on a guess that reads as `guess`, against `secret`.
pub open spec fn verdict_of(guess: Option<u32>, secret: u32) -> Verdict {
    match guess {
        None => Verdict::Invalid,
        Some(g) => if g < secret {
            Verdict::TooSmall
        } else if g > secret {
            Verdict::TooBig
        } else {
            Verdict::Win
        },
    }
}

/// Relies on `rand::random_range` over an inclusive range: a value drawn
/// uniformly from `low..=high`, which holds at least one value here (an empty
/// range would panic). The thread's generator panics only where the system's
/// entropy source cannot seed it, which no argument can rule out.
#[verifier::external_body]
fn random_between(low: u32, high: u32) -> (r: u32)
    requires
        low <= high,
    ensures
        low <= r <= high,
{
    rand::random_range(low..=high)
}

/// One run of the guessing game: a secret and whether it has been guessed.
#[derive(Clone, Copy, Debug, PartialEq, Eq, Structural)]
pub struct Game {
    pub secret: u32,
    pub won: bool,
}

impl Game {
    /// The secret lies in the game's range.
    pub open spec fn wf(self) -> bool {
        LOWEST_SECRET <= self.secret <= HIGHEST_SECRET
    }

    /// A game with a secret drawn at random from the game's range.
    pub fn new() -> (g: Self)
        ensures
            g.wf(),
            !g.won,
    {
        Game { secret: random_between(LOWEST_SECRET, HIGHEST_SECRET), won: false }
    }

    /// A game with the given secret.
    pub fn with_secret(secret: u32) -> (g: Self)
        requires
            LOWEST_SECRET <= secret <= HIGHEST_SECRET,
        ensures
            g.secret == secret,
            !g.won,
            g.wf(),
    {
        Game { secret, won: false }
    }

    /// Compares a guess already read with the secret. A missing guess is
    /// invalid and compares nothing. The secret never changes, and the game
    /// is won from the first guess that equals it on.
    pub fn judge(&mut self, guess: Option<u32>) -> (r: Verdict)
        ensures
            r == verdict_of(guess, old(self).secret),
            final(self).secret == old(self).secret,
            final(self).won == (old(self).won || r == Verdict::Win),
    {
        match guess {
            None => Verdict::Invalid,
            Some(g) => {
                if g < self.secret {
                    Verdict::TooSmall
                } else if g > self.secret {
                    Verdict::TooBig
                } else {
                    self.won = true;
                    Verdict::Win
                }
            },
        }
    }

    /// Reads one line of input as a guess and judges it. A line that is no
    /// number is `Invalid` and leaves the game as it was.
    pub fn guess(&mut self, line: &str) -> (r: Verdict)
        ensures
            r == verdict_of(decimal_of(trimmed(line@)), old(self).secret),
            final(self).secret == old(self).secret,
            final(self).won == (old(self).won || r == Verdict::Win),
            decimal_of(trimmed(line@)).is_none() ==> r == Verdict::Invalid && *final(self) == *old(self),
    {
        self.judge(parse_line(line))
    }

    pub fn is_won(&self) -> (r: bool)
        ensures
            r == self.won,
    {
        self.won
    }
}

} // verus!
