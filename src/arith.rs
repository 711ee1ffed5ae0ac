//! Facts about floor division that the screen mapping rests on.
use vstd::prelude::*;
use vstd::arithmetic::div_mod::{lemma_fundamental_div_mod, lemma_mod_bound};

verus! {

/// Division by a positive divisor rounds down, and the quotient is no
/// farther from zero than the dividend.
pub proof fn lemma_floor_div_bounds(n: int, c: int)
    requires
        c > 0,
    ensures
        c * (n / c) <= n < c * (n / c) + c,
        n >= 0 ==> 0 <= n / c <= n,
        n < 0 ==> n <= n / c < 0,
{
    lemma_fundamental_div_mod(n, c);
    lemma_mod_bound(n, c);
    let q = n / c;
    assert(n >= 0 ==> 0 <= q <= n) by (nonlinear_arith)
        requires
            c > 0,
            c * q <= n < c * q + c,
    ;
    assert(n < 0 ==> n <= q < 0) by (nonlinear_arith)
        requires
            c > 0,
            c * q <= n < c * q + c,
    ;
}

} // verus!
