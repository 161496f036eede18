//! Facts about single bits in machine words.

use vstd::prelude::*;

verus! {

/// Whether any bit of `mask` is set in `bits`.
pub open spec fn any32(bits: u32, mask: u32) -> bool {
    bits & mask != 0
}

/// Whether any bit of `mask` is set in `bits`.
pub open spec fn any8(bits: u8, mask: u8) -> bool {
    bits & mask != 0
}

/// Setting bits adds exactly those bits.
pub proof fn lemma_or32(a: u32, b: u32, mask: u32)
    ensures
        any32(a | b, mask) <==> any32(a, mask) || any32(b, mask),
{
    assert((a | b) & mask != 0 <==> (a & mask != 0 || b & mask != 0)) by (bit_vector);
}

} // verus!
