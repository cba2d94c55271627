//! The hit count of a check.
//!
//! The wire encoding of a request cannot tell an absent `hits_addend` from
//! the value zero, and a caller that asks for zero hits has no use for the
//! protocol, so zero stands for "not given" and counts as one hit.

use vstd::prelude::*;

verus! {

/// The number of hits that a request with the given `hits_addend` applies.
pub open spec fn normalized_hits(hits_addend: u32) -> int {
    if hits_addend == 0 {
        1
    } else {
        hits_addend as int
    }
}

/// Returns the hit count to hand to the decision engine: one where the field
/// is zero, the field's value otherwise.
pub fn normalize_hits_addend(hits_addend: u32) -> (hits: i64)
    ensures
        hits == normalized_hits(hits_addend),
{
    if hits_addend == 0 {
        1
    } else {
        hits_addend as i64
    }
}

} // verus!
