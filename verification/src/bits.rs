//! Single bits of a byte.
use vstd::prelude::*;

verus! {

/// Whether bit `b` of `n` is set.
pub open spec fn bit_set(n: u8, b: nat) -> bool {
    n & (1u8 << b) != 0
}

/// Whether bit `b` of `n` is set.
pub fn test_bit(n: u8, b: usize) -> (set: bool)
    requires
        b < 8,
    ensures
        set == bit_set(n, b as nat),
{
    (n & (1u8 << b)) != 0
}

} // verus!
