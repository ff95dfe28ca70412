//! The one randomness source of the library.
//!
//! Every random decision of the game (stroll directions, spawn rings, drop
//! offsets, zombie kinds) is drawn through `random_in`, so all surrounding
//! logic is verified for every value the draw may take.

use vstd::prelude::*;

verus! {

/// Relies on rand::random_range: a value of the given half-open range,
/// from the thread-local generator. It panics only on an empty range,
/// which the precondition rules out.
#[verifier::external_body]
pub fn random_in(lo: i64, hi: i64) -> (r: i64)
    requires
        lo < hi,
    ensures
        lo <= r < hi,
{
    rand::random_range(lo..hi)
}

} // verus!
