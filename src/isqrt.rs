//! The integer square root, rounded down.
use vstd::prelude::*;

verus! {

/// The largest value that `isqrt` accepts is below this bound (2^126).
pub const ISQRT_LIMIT: u128 = 85070591730234615865843651857942052864;

/// `r` is the square root of `n` rounded down.
pub open spec fn is_floor_sqrt(r: int, n: int) -> bool {
    0 <= r && r * r <= n < (r + 1) * (r + 1)
}

/// The square root of `n`, rounded down.
pub fn isqrt(n: u128) -> (r: u64)
    requires
        n < ISQRT_LIMIT,
    ensures
        is_floor_sqrt(r as int, n as int),
{
    let mut lo: u128 = 0;
    let mut hi: u128 = 9223372036854775808;
    assert(hi * hi == ISQRT_LIMIT);
    while hi - lo > 1
        invariant
            lo < hi <= 9223372036854775808,
            lo * lo <= n,
            n < hi * hi,
        decreases hi - lo,
    {
        let mid: u128 = lo + (hi - lo) / 2;
        assert(mid * mid < 85070591730234615865843651857942052864) by (nonlinear_arith)
            requires
                mid < hi,
                hi <= 9223372036854775808,
        ;
        if mid * mid <= n {
            lo = mid;
        } else {
            hi = mid;
        }
    }
    assert(hi == lo + 1);
    lo as u64
}

} // verus!
