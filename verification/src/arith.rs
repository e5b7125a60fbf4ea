//! Facts about whole numbers that the proofs on readings share.

use vstd::prelude::*;
use vstd::arithmetic::div_mod::{
    lemma_basic_div, lemma_fundamental_div_mod, lemma_mod_bound, lemma_small_mod,
};
use vstd::arithmetic::mul::{
    lemma_mul_inequality, lemma_mul_is_commutative, lemma_mul_is_distributive_add_other_way,
};
use vstd::arithmetic::power2::{lemma_pow2_strictly_increases, pow2};

verus! {

/// Multiplying both sides by one positive number keeps their order.
pub proof fn lemma_scaled_order(a: int, b: int, p: int)
    by (nonlinear_arith)
    requires
        p > 0,
    ensures
        (a * p < b * p) == (a < b),
        (a * p == b * p) == (a == b),
{
}

/// `m` is below `t` times `q` exactly when the whole quotient of `m` by `q`
/// is below `t`.
pub proof fn lemma_quotient_order(m: int, t: int, q: int)
    requires
        q > 0,
    ensures
        (m < t * q) == (m / q < t),
{
    lemma_fundamental_div_mod(m, q);
    lemma_mod_bound(m, q);
    lemma_mul_is_commutative(q, m / q);
    if m / q < t {
        lemma_mul_inequality(m / q + 1, t, q);
        lemma_mul_is_distributive_add_other_way(q, m / q, 1);
    } else {
        lemma_mul_inequality(t, m / q, q);
    }
}

/// A natural number below the divisor has the quotient zero and is its own
/// remainder.
pub proof fn lemma_small_quotient(m: int, q: int)
    requires
        0 <= m < q,
    ensures
        m / q == 0,
        m % q == m,
{
    lemma_small_mod(m as nat, q as nat);
    lemma_basic_div(m, q);
}

/// Powers of two do not shrink as the exponent grows.
pub proof fn lemma_pow2_reaches(a: nat, b: nat)
    requires
        a <= b,
    ensures
        pow2(a) <= pow2(b),
{
    if a < b {
        lemma_pow2_strictly_increases(a, b);
    }
}

} // verus!
