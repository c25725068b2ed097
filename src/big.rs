use vstd::prelude::*;
use factorial::Factorial;
use num::BigUint;
use crate::factorial_num::{fact, FactorialNum};

verus! {

#[verifier::external_type_specification]
#[verifier::external_body]
pub struct ExBigUint(BigUint);

/// The natural number that a `BigUint` holds.
pub uninterp spec fn big_value(b: BigUint) -> nat;

/// Relies on `factorial::Factorial::checked_factorial` for `BigUint`: it
/// computes `n!` exactly, and gives `None` only where `n` is too large to be
/// converted to `u32`.
#[verifier::external_body]
fn big_checked_factorial(n: &BigUint) -> (r: Option<BigUint>)
    ensures
        r is Some <==> big_value(*n) <= u32::MAX,
        r matches Some(f) ==> big_value(f) == fact(big_value(*n)),
{
    Factorial::checked_factorial(n)
}

/// Relies on `factorial::Factorial::factorial` for `BigUint`: `n!`, which
/// panics only where the checked factorial gives `None`.
#[verifier::external_body]
fn big_factorial(n: &BigUint) -> (r: BigUint)
    requires
        big_value(*n) <= u32::MAX,
    ensures
        big_value(r) == fact(big_value(*n)),
{
    Factorial::factorial(n)
}

/// Relies on `Sub` for `&BigUint`: the difference, which panics when `b > a`.
#[verifier::external_body]
fn big_sub(a: &BigUint, b: &BigUint) -> (r: BigUint)
    requires
        big_value(*b) <= big_value(*a),
    ensures
        big_value(r) == big_value(*a) - big_value(*b),
{
    a - b
}

/// Relies on `Mul` for `&BigUint`: the exact product.
#[verifier::external_body]
fn big_mul(a: &BigUint, b: &BigUint) -> (r: BigUint)
    ensures
        big_value(r) == big_value(*a) * big_value(*b),
{
    a * b
}

/// Relies on `Div` for `&BigUint`: the quotient rounded down, which panics
/// when `b` is zero.
#[verifier::external_body]
fn big_div(a: &BigUint, b: &BigUint) -> (r: BigUint)
    requires
        big_value(*b) > 0,
    ensures
        big_value(r) == big_value(*a) / big_value(*b),
{
    a / b
}

/// Relies on `PartialOrd` for `BigUint`: `<` compares the numbers held.
#[verifier::external_body]
fn big_lt(a: &BigUint, b: &BigUint) -> (r: bool)
    ensures
        r == (big_value(*a) < big_value(*b)),
{
    a < b
}

impl FactorialNum for BigUint {
    open spec fn value(&self) -> nat {
        big_value(*self)
    }

    open spec fn fits(v: nat) -> bool {
        true
    }

    open spec fn has_factorial(n: nat) -> bool {
        n <= u32::MAX
    }

    proof fn lemma_fits_below(a: nat, b: nat) {
    }

    proof fn lemma_has_factorial_below(n: nat, m: nat) {
    }

    fn checked_factorial(&self) -> (r: Option<BigUint>) {
        big_checked_factorial(self)
    }

    fn factorial(&self) -> (r: BigUint) {
        big_factorial(self)
    }

    fn minus(&self, other: &BigUint) -> (r: BigUint) {
        big_sub(self, other)
    }

    fn times(&self, other: &BigUint) -> (r: BigUint) {
        big_mul(self, other)
    }

    fn quotient(&self, other: &BigUint) -> (r: BigUint) {
        big_div(self, other)
    }

    fn less_than(&self, other: &BigUint) -> (r: bool) {
        big_lt(self, other)
    }
}

} // verus!
