//! Token sequences.
//!
//! A request's text is segmented into an ordered sequence of unsigned integer
//! token identifiers. The encoder additionally takes a token-type sequence;
//! single-segment input always uses the all-zero sequence of the same length.

use vstd::prelude::*;

verus! {

/// The all-zero token-type sequence of length `len`, viewed mathematically.
pub open spec fn zero_type_ids(len: nat) -> Seq<u32> {
    Seq::new(len, |i: int| 0u32)
}

/// Builds the token-type sequence for single-segment input: one zero per
/// input token.
pub fn token_type_ids_for(len: usize) -> (r: Vec<u32>)
    ensures
        r@ == zero_type_ids(len as nat),
{
    let mut r: Vec<u32> = Vec::new();
    let mut i: usize = 0;
    while i < len
        invariant
            i <= len,
            r@ =~= zero_type_ids(i as nat),
        decreases len - i,
    {
        r.push(0u32);
        proof {
            assert(r@ =~= zero_type_ids((i + 1) as nat));
        }
        i = i + 1;
    }
    r
}

} // verus!
