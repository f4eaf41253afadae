use vstd::prelude::*;

verus! {

/// A quotient that truncates is the largest `q` with `q * d <= n`.
pub(crate) proof fn lemma_floor_div(n: int, d: int)
    requires
        0 <= n,
        0 < d,
    ensures
        0 <= n / d,
        (n / d) * d <= n,
        n < (n / d + 1) * d,
{
    vstd::arithmetic::div_mod::lemma_fundamental_div_mod(n, d);
    vstd::arithmetic::div_mod::lemma_mod_bound(n, d);
    vstd::arithmetic::div_mod::lemma_div_pos_is_pos(n, d);
    assert((n / d) * d == d * (n / d)) by (nonlinear_arith);
    assert((n / d + 1) * d == d * (n / d) + d) by (nonlinear_arith);
}

/// `q * d <= n` bounds the quotient from below.
pub(crate) proof fn lemma_div_at_least(n: int, d: int, q: int)
    requires
        0 <= n,
        0 < d,
        q * d <= n,
    ensures
        q <= n / d,
{
    lemma_floor_div(n, d);
    assert(q < n / d + 1) by (nonlinear_arith)
        requires
            q * d <= n,
            n < (n / d + 1) * d,
            0 < d,
    ;
}

/// `n <= q * d` bounds the quotient from above.
pub(crate) proof fn lemma_div_at_most(n: int, d: int, q: int)
    requires
        0 <= n,
        0 < d,
        n <= q * d,
    ensures
        n / d <= q,
{
    lemma_floor_div(n, d);
    assert(n / d <= q) by (nonlinear_arith)
        requires
            (n / d) * d <= n,
            n <= q * d,
            0 < d,
    ;
}

/// Truncating division keeps the order of two fractions: if
/// `a1 / d1 <= a2 / d2` as rationals, the same holds of the quotients.
pub(crate) proof fn lemma_fraction_order(a1: int, d1: int, a2: int, d2: int)
    requires
        0 <= a1,
        0 <= a2,
        0 < d1,
        0 < d2,
        a1 * d2 <= a2 * d1,
    ensures
        a1 / d1 <= a2 / d2,
{
    lemma_floor_div(a1, d1);
    let q = a1 / d1;
    assert(q * d2 <= a2) by (nonlinear_arith)
        requires
            0 <= q,
            q * d1 <= a1,
            a1 * d2 <= a2 * d1,
            0 < d1,
            0 < d2,
            0 <= a2,
    {
        assert(q * d1 * d2 <= a1 * d2);
        assert(q * d2 * d1 <= a2 * d1);
    }
    lemma_div_at_least(a2, d2, q);
}

} // verus!
