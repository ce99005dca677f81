//! Rounding lengths up to an alignment.

use vstd::prelude::*;

verus! {

/// The least multiple of `alignment` that is not below `len`; `len` itself
/// where no alignment is asked for.
pub open spec fn aligned_up(len: nat, alignment: nat) -> nat {
    if alignment == 0 {
        len
    } else {
        ((len + alignment - 1) / (alignment as int) * alignment) as nat
    }
}

/// `aligned_up` is a multiple of the alignment, is not below the length,
/// and no smaller multiple is.
pub proof fn lemma_aligned_up_is_least(len: nat, alignment: nat, other: nat)
    requires
        alignment > 0,
    ensures
        aligned_up(len, alignment) % alignment == 0,
        len <= aligned_up(len, alignment) < len + alignment,
        other % alignment == 0 && len <= other ==> aligned_up(len, alignment) <= other,
{
    let a = alignment as int;
    let up = len + a - 1;
    let q = up / a;
    assert(up == q * a + up % a && 0 <= up % a < a) by (nonlinear_arith)
        requires
            a > 0,
            q == up / a,
    ;
    assert((q * a) % a == 0) by (nonlinear_arith)
        requires
            a > 0,
    ;
    if other % alignment == 0 && len <= other {
        let k = other as int / a;
        assert(other == k * a) by (nonlinear_arith)
            requires
                a > 0,
                k == other as int / a,
                other as int % a == 0,
        ;
        assert(q <= k) by (nonlinear_arith)
            requires
                a > 0,
                q * a <= len + a - 1,
                len <= k * a,
        ;
        assert(q * a <= k * a) by (nonlinear_arith)
            requires
                a > 0,
                q <= k,
        ;
    }
}

/// Rounds a length up to an alignment.
pub fn align_up(len: u64, alignment: u32) -> (aligned: u64)
    requires
        len + alignment <= u64::MAX,
    ensures
        aligned == aligned_up(len as nat, alignment as nat),
{
    if alignment == 0 {
        return len;
    }
    let step: u64 = alignment as u64;
    let steps: u64 = (len + (step - 1)) / step;
    assert(steps * step <= len + step - 1) by (nonlinear_arith)
        requires
            step > 0,
            steps == (len + step - 1) / (step as int),
    ;
    steps * step
}

} // verus!
