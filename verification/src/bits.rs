//! Single bits of a machine word, and how many of them are set.

use vstd::prelude::*;

verus! {

/// Width of the word that the board is packed into.
pub const WORD_BITS: u32 = 32;

/// Whether bit `i` of `x` is set.
pub open spec fn has_bit(x: u32, i: u32) -> bool {
    x & (1u32 << i) != 0
}

/// How many of the lowest `n` bits of `x` are set.
pub open spec fn ones_below(x: u32, n: u32) -> nat
    decreases n,
{
    if n == 0 {
        0
    } else {
        ones_below(x, (n - 1) as u32) + if has_bit(x, (n - 1) as u32) {
            1nat
        } else {
            0nat
        }
    }
}

/// Trusted: `u32::count_ones` of the standard library, which returns the number of
/// ones in the binary representation of its argument. Stated here as the number of
/// set bits among all the bits of the word; nothing of it is proved.
pub assume_specification[ u32::count_ones ](x: u32) -> (n: u32)
    ensures
        n == ones_below(x, WORD_BITS),
;

} // verus!
