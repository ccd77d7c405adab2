//! The number-guessing game: a hidden target between 1 and 100 and a
//! verdict for each line the player types.
//!
//! Drawing the target goes through the `rand` crate; judging a guess is
//! plain logic with an exact contract.  The surrounding program owns
//! the read-judge-print loop: it reads a line, parses it, asks `judge`
//! for the verdict, prints it, and stops on `Correct`.

use vstd::prelude::*;

verus! {

/// The game: draws targets and judges guesses.
pub struct GuessNumber {}

/// The verdict on one typed line.
#[derive(Clone, Copy, Debug, PartialEq, Eq, Structural)]
pub enum GuessOutcome {
    /// The line did not parse as a number; the player retries.
    Invalid,
    /// The guess is below the target.
    TooSmall,
    /// The guess is above the target.
    TooBig,
    /// The guess hits the target; the game ends.
    Correct,
}

#[verifier::external_type_specification]
#[verifier::external_body]
pub struct ExThreadRng(rand::rngs::ThreadRng);

/// Relies on rand::thread_rng: a handle to the thread-local random
/// number generator.
#[verifier::external_body]
fn fresh_rng() -> rand::rngs::ThreadRng {
    rand::thread_rng()
}

/// Relies on rand::Rng::gen_range: a draw from the given range, here
/// `1..101`, so the result lies between 1 and 100.
#[verifier::external_body]
fn gen_range_1_to_100(rng: &mut rand::rngs::ThreadRng) -> (r: u32)
    ensures
        1 <= r <= 100,
{
    rand::Rng::gen_range(rng, 1u32..101u32)
}

impl GuessNumber {
    /// Draws a fresh hidden target; it always lies between 1 and 100.
    pub fn new_target() -> (t: u32)
        ensures
            1 <= t <= 100,
    {
        let mut rng = fresh_rng();
        gen_range_1_to_100(&mut rng)
    }

    /// Judges one line, already parsed: no number is `Invalid`, a
    /// number is compared against the target.
    pub fn judge(parsed: Option<u32>, target: u32) -> (r: GuessOutcome)
        ensures
            parsed is None ==> r == GuessOutcome::Invalid,
            (parsed matches Some(g) && g < target) ==> r == GuessOutcome::TooSmall,
            (parsed matches Some(g) && g > target) ==> r == GuessOutcome::TooBig,
            (parsed matches Some(g) && g == target) ==> r == GuessOutcome::Correct,
    {
        match parsed {
            None => GuessOutcome::Invalid,
            Some(g) => {
                if g < target {
                    GuessOutcome::TooSmall
                } else if g > target {
                    GuessOutcome::TooBig
                } else {
                    GuessOutcome::Correct
                }
            },
        }
    }
}

} // verus!
