use vstd::prelude::*;
use num::BigUint;
use crate::factorial_num::{fact, lemma_fact_positive, FactorialNum};
use crate::combination::{
    binomial, checked_binomial, ERR_N_LESS_THAN_R, ERR_TOP_OVERFLOW,
};

verus! {

/// Where `n >= r` and the domain computes `n!`, checked evaluation succeeds
/// with the same value that unchecked evaluation returns, `binomial(n, r)`.
pub proof fn lemma_checked_agrees_with_unchecked<T: FactorialNum>(n: nat, r: nat)
    requires
        r <= n,
        T::has_factorial(n),
    ensures
        checked_binomial::<T>(n, r) == Ok::<nat, &'static str>(binomial(n, r)),
{
    T::lemma_has_factorial_below(n, r);
    T::lemma_has_factorial_below(n, (n - r) as nat);
}

/// Where `n < r`, checked evaluation fails with the invalid-pair error and
/// never with an overflow.
pub proof fn lemma_invalid_pair_rejected<T: FactorialNum>(n: nat, r: nat)
    requires
        n < r,
    ensures
        checked_binomial::<T>(n, r) == Err::<nat, &'static str>(ERR_N_LESS_THAN_R),
{
}

/// `C(n, r) == C(n, n - r)`, and checked evaluation of the two pairs gives
/// the same value wherever either succeeds.
pub proof fn lemma_symmetry<T: FactorialNum>(n: nat, r: nat)
    requires
        r <= n,
    ensures
        binomial(n, r) == binomial(n, (n - r) as nat),
        checked_binomial::<T>(n, r) is Ok ==> checked_binomial::<T>(n, (n - r) as nat)
            == checked_binomial::<T>(n, r),
        checked_binomial::<T>(n, (n - r) as nat) is Ok ==> checked_binomial::<T>(n, (n - r) as nat)
            == checked_binomial::<T>(n, r),
{
    let s = (n - r) as nat;
    assert((n - s) as nat == r);
    assert(fact(r) * fact(s) == fact(s) * fact(r)) by (nonlinear_arith);
}

/// `C(n, 0) == 1` and `C(n, n) == 1`; checked evaluation gives both wherever
/// the domain computes `n!`.
pub proof fn lemma_boundary<T: FactorialNum>(n: nat)
    ensures
        binomial(n, 0) == 1,
        binomial(n, n) == 1,
        T::has_factorial(n) ==> checked_binomial::<T>(n, 0) == Ok::<nat, &'static str>(1),
        T::has_factorial(n) ==> checked_binomial::<T>(n, n) == Ok::<nat, &'static str>(1),
{
    lemma_fact_positive(n);
    assert(fact(0) == 1);
    assert((n - 0) as nat == n);
    assert((n - n) as nat == 0);
    assert(fact(n) / (1 * fact(n)) == 1) by (nonlinear_arith)
        requires
            fact(n) >= 1,
    ;
    assert(fact(n) / (fact(n) * 1) == 1) by (nonlinear_arith)
        requires
            fact(n) >= 1,
    ;
    if T::has_factorial(n) {
        lemma_checked_agrees_with_unchecked::<T>(n, 0);
        lemma_checked_agrees_with_unchecked::<T>(n, n);
    }
}

/// At the largest `n` whose factorial the domain computes, every valid pair
/// `(n, r)` succeeds, and every pair `(n + 1, r)` fails at the top factorial.
pub proof fn lemma_overflow_threshold<T: FactorialNum>(n: nat, r: nat)
    requires
        T::has_factorial(n),
        !T::has_factorial(n + 1),
        r <= n + 1,
    ensures
        r <= n ==> checked_binomial::<T>(n, r) == Ok::<nat, &'static str>(binomial(n, r)),
        checked_binomial::<T>(n + 1, r) == Err::<nat, &'static str>(ERR_TOP_OVERFLOW),
{
    if r <= n {
        lemma_checked_agrees_with_unchecked::<T>(n, r);
    }
}

/// `BigUint` never reports an overflow: for every `n` up to `u32::MAX`, each
/// valid pair succeeds with the binomial coefficient.
pub proof fn lemma_big_never_overflows(n: nat, r: nat)
    requires
        r <= n <= u32::MAX,
    ensures
        checked_binomial::<BigUint>(n, r) == Ok::<nat, &'static str>(binomial(n, r)),
{
}

} // verus!
