//! Facts about wrapping arithmetic that the contracts state with `%`.
use vstd::prelude::*;

verus! {

/// A value within one modulus of the range `0..m` wraps by at most one modulus.
pub proof fn lemma_wrap(t: int, m: int)
    requires
        m > 0,
        -m <= t < 2 * m,
    ensures
        t % m == (if t >= m {
            t - m
        } else if t < 0 {
            t + m
        } else {
            t
        }),
{
    if t >= m {
        assert(t % m == t - m) by (nonlinear_arith)
            requires
                m > 0,
                m <= t < 2 * m,
        ;
    } else if t < 0 {
        assert(t % m == t + m) by (nonlinear_arith)
            requires
                m > 0,
                -m <= t < 0,
        ;
    } else {
        assert(t % m == t) by (nonlinear_arith)
            requires
                m > 0,
                0 <= t < m,
        ;
    }
}

} // verus!
