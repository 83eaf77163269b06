use vstd::prelude::*;

verus! {

/// A count of bits.
pub type Bitlen = u32;

} // verus!
