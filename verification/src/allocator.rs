//! Alignment arithmetic for over-aligned audio buffers.
//!
//! The allocator entry points themselves are unstable hooks of the standard
//! library and live with the host shell; what belongs here is the type that
//! fixes the alignment and the rounding arithmetic those hooks rely on.

use vstd::prelude::*;

verus! {

/// An allocator marker that over-aligns every allocation to `ALIGNMENT`
/// bytes.
pub struct AlignedAllocator<const ALIGNMENT: usize>;

impl<const ALIGNMENT: usize> AlignedAllocator<ALIGNMENT> {
    /// The least multiple of `ALIGNMENT` at or above `size`: the number of
    /// bytes an allocation of `size` occupies once padded to the alignment
    /// boundary.
    pub fn aligned_size(size: usize) -> (r: usize)
        requires
            1 <= ALIGNMENT,
            size + ALIGNMENT <= usize::MAX,
        ensures
            r as int % (ALIGNMENT as int) == 0,
            size <= r < size + ALIGNMENT,
    {
        proof {
            vstd::arithmetic::div_mod::lemma_mod_bound(size as int, ALIGNMENT as int);
        }
        let rem = size % ALIGNMENT;
        if rem == 0 {
            size
        } else {
            proof {
                vstd::arithmetic::div_mod::lemma_fundamental_div_mod(
                    size as int,
                    ALIGNMENT as int,
                );
                let q = size as int / ALIGNMENT as int;
                assert((ALIGNMENT as int) * (q + 1) == (ALIGNMENT as int) * q + ALIGNMENT as int)
                    by (nonlinear_arith);
                vstd::arithmetic::div_mod::lemma_mod_multiples_vanish(q + 1, 0, ALIGNMENT as int);
                vstd::arithmetic::div_mod::lemma_small_mod(0nat, ALIGNMENT as nat);
            }
            size + (ALIGNMENT - rem)
        }
    }
}

} // verus!
