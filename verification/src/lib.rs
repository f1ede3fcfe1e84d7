//! A streaming convolution library: uniform partitioned frequency-domain
//! overlap-save convolution of a live multi-channel audio stream with a
//! fixed impulse response, together with the real-time-safe hot-swap plane
//! that replaces the live convolver when a new impulse response is loaded.
//!
//! Samples cross the library boundary as IEEE-754 single-precision bit
//! patterns (`u32`); see [`sample`].

pub mod allocator;
pub mod convolution;
pub mod fft;
pub mod plugin;
pub mod sample;
pub mod ui;

use vstd::prelude::*;

verus! {

/// The smallest power of two that is at least `m` (and 1 for `m <= 1`).
pub open spec fn low_pow2(m: int) -> int
    decreases m,
{
    if m <= 1 {
        1
    } else {
        2 * low_pow2((m + 1) / 2)
    }
}

/// Whether `p` is a power of two.
pub open spec fn is_pow2(p: int) -> bool
    decreases p,
{
    if p < 1 {
        false
    } else if p == 1 {
        true
    } else {
        p % 2 == 0 && is_pow2(p / 2)
    }
}

/// The smallest power of two at least `m`, as an executable function.
pub fn next_pow2(m: usize) -> (r: usize)
    requires
        m <= usize::MAX / 8,
    ensures
        r == low_pow2(m as int),
        1 <= r <= usize::MAX / 4,
        r >= m,
        m >= 1 ==> r < 2 * m,
{
    let mut p: usize = 1;
    while p < m
        invariant
            1 <= p <= usize::MAX / 4,
            is_pow2(p as int),
            p == 1 || p / 2 < m,
            m <= usize::MAX / 8,
        decreases 2 * m - p,
    {
        p = p * 2;
    }
    proof {
        lemma_low_pow2_unique(m as int, p as int);
    }
    p
}

/// Every power of two `p` with `p >= m` and `p/2 < m` is the least power of
/// two at least `m`.
proof fn lemma_low_pow2_unique(m: int, p: int)
    requires
        is_pow2(p),
        p >= m,
        p == 1 || p / 2 < m,
    ensures
        low_pow2(m) == p,
    decreases p,
{
    if m <= 1 {
        assert(p == 1 || p / 2 < 1);
        if p != 1 {
            assert(p / 2 >= 1);
        }
    } else {
        assert(p >= 2);
        lemma_low_pow2_unique((m + 1) / 2, p / 2);
    }
}

} // verus!

