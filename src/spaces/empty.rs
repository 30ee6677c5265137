//! The slot that never holds an element.
use vstd::prelude::*;

use super::Space;

verus! {

/// A space in a board that never contains an element: it takes no storage.
#[derive(Copy, Clone, Eq, PartialEq, Ord, PartialOrd, Hash, Debug, Default)]
pub struct EmptySpace {}

impl EmptySpace {
    /// Creates the empty space.
    pub fn new() -> (r: Self)
        ensures
            r == (EmptySpace {}),
    {
        EmptySpace {}
    }

    /// Renders the space: a blank between two pipes.
    pub fn to_string(&self) -> (r: String)
        ensures
            r@ == seq!['|', ' ', '|'],
    {
        let s = String::from_str("| |");
        proof {
            reveal_strlit("| |");
        }
        s
    }
}

impl<T> Space<T> for EmptySpace {
    open spec fn is_vacant(&self) -> bool {
        true
    }

    fn new() -> (r: Self) {
        EmptySpace::new()
    }
}

} // verus!
