//! Small subjects for tests: a greeting and a guess kept within bounds.

use vstd::prelude::*;
use vstd::string::StringExecFns;

verus! {

/// A greeting that consists of the name alone.
pub fn greeting(name: &str) -> (text: String)
    ensures
        text@ == name@,
{
    String::from_str(name)
}

/// A guess between 1 and 100.
pub struct Guess {
    value: i32,
}

impl View for Guess {
    type V = int;

    closed spec fn view(&self) -> int {
        self.value as int
    }
}

impl Guess {
    #[verifier::type_invariant]
    spec fn in_bounds(self) -> bool {
        1 <= self.value <= 100
    }

    /// Keeps a guess; only a number from 1 to 100 is one.
    pub fn new(value: i32) -> (guess: Guess)
        requires
            1 <= value <= 100,
        ensures
            guess@ == value,
    {
        Guess { value }
    }

    /// The number guessed, which lies between 1 and 100.
    pub fn value(&self) -> (value: i32)
        ensures
            value == self@,
            1 <= value <= 100,
    {
        proof {
            use_type_invariant(self);
        }
        self.value
    }
}

} // verus!
