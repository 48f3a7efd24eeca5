//! Relevance scores as exact bit patterns.

use vstd::prelude::*;

verus! {

/// A relevance score reported by the search engine, kept as the bit pattern
/// of its 32-bit IEEE 754 encoding. The score is stored and handed back
/// without ever being computed with, so two scores are the same exactly when
/// their bits are.
#[derive(Clone, Copy, Debug, PartialEq, Eq, Structural)]
pub struct Score {
    pub bits: u32,
}

impl Score {
    /// The score of positive zero, which a score range holds before any
    /// bound has been set.
    pub open spec fn zero() -> Score {
        Score { bits: 0 }
    }
}

} // verus!
