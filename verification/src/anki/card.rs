//! The cards that a note gives rise to.

use vstd::prelude::*;

verus! {

/// One card of a note: the number of the template it is made from, and
/// whether it is suspended.
#[derive(Debug, Clone, Copy, PartialEq, Eq, Structural)]
pub struct Card {
    pub ord: i64,
    pub suspend: bool,
}

impl Card {
    pub fn new(ord: i64, suspend: bool) -> (r: Card)
        ensures
            r == (Card { ord, suspend }),
    {
        Card { ord, suspend }
    }

    /// The number of the template.
    pub fn ord(&self) -> (r: i64)
        ensures
            r == self.ord,
    {
        self.ord
    }

    /// The queue that the card is stored in: -1 for a suspended card, 0 for
    /// any other.
    pub open spec fn spec_queue(&self) -> i64 {
        if self.suspend {
            -1i64
        } else {
            0i64
        }
    }

    /// The queue that the card is stored in.
    pub fn queue(&self) -> (r: i64)
        ensures
            r == self.spec_queue(),
    {
        if self.suspend {
            -1
        } else {
            0
        }
    }
}

} // verus!
