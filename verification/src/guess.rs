//! A guessed number, constrained to the playable range.

use vstd::prelude::*;

verus! {

/// A guess between 1 and 100 inclusive; values outside that range are not
/// representable through [`Guess::new`].
#[derive(Clone, Copy, Debug, PartialEq, Eq, Structural)]
pub struct Guess {
    pub value: i32,
}

impl Guess {
    pub fn new(value: i32) -> (g: Guess)
        requires
            1 <= value <= 100,
        ensures
            g.value == value,
    {
        Guess { value }
    }
}

} // verus!
