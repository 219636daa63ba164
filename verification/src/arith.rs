//! Small arithmetic lemmas about products, shared by the canvas and
//! the projector, which the solver does not derive on its own.

use vstd::prelude::*;

verus! {

/// A product grows with each factor.
pub proof fn lemma_mul_le(a: int, b: int, c: int, d: int)
    requires
        0 <= a <= c,
        0 <= b <= d,
    ensures
        a * b <= c * d,
{
    assert(a * b <= c * d) by (nonlinear_arith)
        requires 0 <= a <= c && 0 <= b <= d;
}

/// A product of positive factors is positive.
pub proof fn lemma_mul_pos(a: int, b: int)
    requires
        1 <= a,
        1 <= b,
    ensures
        1 <= a * b,
{
    assert(1 <= a * b) by (nonlinear_arith)
        requires 1 <= a && 1 <= b;
}

} // verus!
