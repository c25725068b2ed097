use vstd::prelude::*;
use factorial::Factorial;

verus! {

/// `n!`, with `0! == 1`.
pub open spec fn fact(n: nat) -> nat
    decreases n,
{
    if n == 0 {
        1
    } else {
        n * fact((n - 1) as nat)
    }
}

pub proof fn lemma_fact_positive(n: nat)
    ensures
        fact(n) >= 1,
    decreases n,
{
    if n > 0 {
        lemma_fact_positive((n - 1) as nat);
        assert(n * fact((n - 1) as nat) >= 1) by (nonlinear_arith)
            requires
                n >= 1,
                fact((n - 1) as nat) >= 1,
        ;
    }
}

pub proof fn lemma_fact_monotone(a: nat, b: nat)
    requires
        a <= b,
    ensures
        fact(a) <= fact(b),
    decreases b,
{
    if a < b {
        lemma_fact_monotone(a, (b - 1) as nat);
        lemma_fact_positive((b - 1) as nat);
        assert(fact((b - 1) as nat) <= b * fact((b - 1) as nat)) by (nonlinear_arith)
            requires
                b >= 1,
        ;
    }
}

/// A numeric domain in which binomial coefficients can be computed: it has
/// a checked and an unchecked factorial, and subtraction, multiplication,
/// division and comparison on the values it represents.
///
/// `value` is the natural number that a value of the domain stands for;
/// `fits` tells which natural numbers the domain can represent, and
/// `has_factorial` for which `n` the checked factorial succeeds.
pub trait FactorialNum: Sized {
    spec fn value(&self) -> nat;

    spec fn fits(v: nat) -> bool;

    spec fn has_factorial(n: nat) -> bool;

    /// What the domain can represent is closed downwards.
    proof fn lemma_fits_below(a: nat, b: nat)
        requires
            Self::fits(a),
            b <= a,
        ensures
            Self::fits(b),
    ;

    /// A factorial that the domain computes is representable, and so are the
    /// factorials of all smaller numbers.
    proof fn lemma_has_factorial_below(n: nat, m: nat)
        requires
            Self::has_factorial(n),
            m <= n,
        ensures
            Self::has_factorial(m),
            Self::fits(fact(n)),
    ;

    /// `Some(self!)` exactly when the domain computes it, else `None`.
    fn checked_factorial(&self) -> (r: Option<Self>)
        ensures
            r is Some <==> Self::has_factorial(self.value()),
            r matches Some(f) ==> f.value() == fact(self.value()),
    ;

    /// `self!`, for a `self` whose factorial the domain computes.
    fn factorial(&self) -> (r: Self)
        requires
            Self::has_factorial(self.value()),
        ensures
            r.value() == fact(self.value()),
    ;

    fn minus(&self, other: &Self) -> (r: Self)
        requires
            self.value() >= other.value(),
        ensures
            r.value() == self.value() - other.value(),
    ;

    fn times(&self, other: &Self) -> (r: Self)
        requires
            Self::fits(self.value() * other.value()),
        ensures
            r.value() == self.value() * other.value(),
    ;

    fn quotient(&self, other: &Self) -> (r: Self)
        requires
            other.value() > 0,
        ensures
            r.value() == self.value() / other.value(),
    ;

    fn less_than(&self, other: &Self) -> (r: bool)
        ensures
            r == (self.value() < other.value()),
    ;
}

/// Relies on `factorial::Factorial::checked_factorial` for `u32`: `Some(n!)`
/// when `n!` fits in the type, `None` otherwise. From `n = 129` on it first
/// sieves the primes up to `n`, so a very large `n` costs time and memory.
#[verifier::external_body]
fn checked_factorial_u32(n: u32) -> (r: Option<u32>)
    ensures
        r is Some <==> fact(n as nat) <= u32::MAX,
        r matches Some(f) ==> f as nat == fact(n as nat),
{
    Factorial::checked_factorial(&n)
}

/// Relies on `factorial::Factorial::factorial` for `u32`: `n!`, which panics
/// only where the checked factorial gives `None`.
#[verifier::external_body]
fn factorial_u32(n: u32) -> (r: u32)
    requires
        fact(n as nat) <= u32::MAX,
    ensures
        r as nat == fact(n as nat),
{
    Factorial::factorial(&n)
}

impl FactorialNum for u32 {
    open spec fn value(&self) -> nat {
        *self as nat
    }

    open spec fn fits(v: nat) -> bool {
        v <= u32::MAX
    }

    open spec fn has_factorial(n: nat) -> bool {
        fact(n) <= u32::MAX
    }

    proof fn lemma_fits_below(a: nat, b: nat) {
    }

    proof fn lemma_has_factorial_below(n: nat, m: nat) {
        lemma_fact_monotone(m, n);
    }

    fn checked_factorial(&self) -> (r: Option<u32>) {
        checked_factorial_u32(*self)
    }

    fn factorial(&self) -> (r: u32) {
        factorial_u32(*self)
    }

    fn minus(&self, other: &u32) -> (r: u32) {
        *self - *other
    }

    fn times(&self, other: &u32) -> (r: u32) {
        *self * *other
    }

    fn quotient(&self, other: &u32) -> (r: u32) {
        *self / *other
    }

    fn less_than(&self, other: &u32) -> (r: bool) {
        *self < *other
    }
}

/// Relies on `factorial::Factorial::checked_factorial` for `u8`: `Some(n!)`
/// when `n!` fits in the type, `None` otherwise. From `n = 129` on it first
/// sieves the primes up to `n`, so a very large `n` costs time and memory.
#[verifier::external_body]
fn checked_factorial_u8(n: u8) -> (r: Option<u8>)
    ensures
        r is Some <==> fact(n as nat) <= u8::MAX,
        r matches Some(f) ==> f as nat == fact(n as nat),
{
    Factorial::checked_factorial(&n)
}

/// Relies on `factorial::Factorial::factorial` for `u8`: `n!`, which panics
/// only where the checked factorial gives `None`.
#[verifier::external_body]
fn factorial_u8(n: u8) -> (r: u8)
    requires
        fact(n as nat) <= u8::MAX,
    ensures
        r as nat == fact(n as nat),
{
    Factorial::factorial(&n)
}

impl FactorialNum for u8 {
    open spec fn value(&self) -> nat {
        *self as nat
    }

    open spec fn fits(v: nat) -> bool {
        v <= u8::MAX
    }

    open spec fn has_factorial(n: nat) -> bool {
        fact(n) <= u8::MAX
    }

    proof fn lemma_fits_below(a: nat, b: nat) {
    }

    proof fn lemma_has_factorial_below(n: nat, m: nat) {
        lemma_fact_monotone(m, n);
    }

    fn checked_factorial(&self) -> (r: Option<u8>) {
        checked_factorial_u8(*self)
    }

    fn factorial(&self) -> (r: u8) {
        factorial_u8(*self)
    }

    fn minus(&self, other: &u8) -> (r: u8) {
        *self - *other
    }

    fn times(&self, other: &u8) -> (r: u8) {
        *self * *other
    }

    fn quotient(&self, other: &u8) -> (r: u8) {
        *self / *other
    }

    fn less_than(&self, other: &u8) -> (r: bool) {
        *self < *other
    }
}

/// Relies on `factorial::Factorial::checked_factorial` for `u16`: `Some(n!)`
/// when `n!` fits in the type, `None` otherwise. From `n = 129` on it first
/// sieves the primes up to `n`, so a very large `n` costs time and memory.
#[verifier::external_body]
fn checked_factorial_u16(n: u16) -> (r: Option<u16>)
    ensures
        r is Some <==> fact(n as nat) <= u16::MAX,
        r matches Some(f) ==> f as nat == fact(n as nat),
{
    Factorial::checked_factorial(&n)
}

/// Relies on `factorial::Factorial::factorial` for `u16`: `n!`, which panics
/// only where the checked factorial gives `None`.
#[verifier::external_body]
fn factorial_u16(n: u16) -> (r: u16)
    requires
        fact(n as nat) <= u16::MAX,
    ensures
        r as nat == fact(n as nat),
{
    Factorial::factorial(&n)
}

impl FactorialNum for u16 {
    open spec fn value(&self) -> nat {
        *self as nat
    }

    open spec fn fits(v: nat) -> bool {
        v <= u16::MAX
    }

    open spec fn has_factorial(n: nat) -> bool {
        fact(n) <= u16::MAX
    }

    proof fn lemma_fits_below(a: nat, b: nat) {
    }

    proof fn lemma_has_factorial_below(n: nat, m: nat) {
        lemma_fact_monotone(m, n);
    }

    fn checked_factorial(&self) -> (r: Option<u16>) {
        checked_factorial_u16(*self)
    }

    fn factorial(&self) -> (r: u16) {
        factorial_u16(*self)
    }

    fn minus(&self, other: &u16) -> (r: u16) {
        *self - *other
    }

    fn times(&self, other: &u16) -> (r: u16) {
        *self * *other
    }

    fn quotient(&self, other: &u16) -> (r: u16) {
        *self / *other
    }

    fn less_than(&self, other: &u16) -> (r: bool) {
        *self < *other
    }
}

/// Relies on `factorial::Factorial::checked_factorial` for `u64`: `Some(n!)`
/// when `n!` fits in the type, `None` otherwise. From `n = 129` on it first
/// sieves the primes up to `n`, so a very large `n` costs time and memory.
#[verifier::external_body]
fn checked_factorial_u64(n: u64) -> (r: Option<u64>)
    ensures
        r is Some <==> fact(n as nat) <= u64::MAX,
        r matches Some(f) ==> f as nat == fact(n as nat),
{
    Factorial::checked_factorial(&n)
}

/// Relies on `factorial::Factorial::factorial` for `u64`: `n!`, which panics
/// only where the checked factorial gives `None`.
#[verifier::external_body]
fn factorial_u64(n: u64) -> (r: u64)
    requires
        fact(n as nat) <= u64::MAX,
    ensures
        r as nat == fact(n as nat),
{
    Factorial::factorial(&n)
}

impl FactorialNum for u64 {
    open spec fn value(&self) -> nat {
        *self as nat
    }

    open spec fn fits(v: nat) -> bool {
        v <= u64::MAX
    }

    open spec fn has_factorial(n: nat) -> bool {
        fact(n) <= u64::MAX
    }

    proof fn lemma_fits_below(a: nat, b: nat) {
    }

    proof fn lemma_has_factorial_below(n: nat, m: nat) {
        lemma_fact_monotone(m, n);
    }

    fn checked_factorial(&self) -> (r: Option<u64>) {
        checked_factorial_u64(*self)
    }

    fn factorial(&self) -> (r: u64) {
        factorial_u64(*self)
    }

    fn minus(&self, other: &u64) -> (r: u64) {
        *self - *other
    }

    fn times(&self, other: &u64) -> (r: u64) {
        *self * *other
    }

    fn quotient(&self, other: &u64) -> (r: u64) {
        *self / *other
    }

    fn less_than(&self, other: &u64) -> (r: bool) {
        *self < *other
    }
}

/// Relies on `factorial::Factorial::checked_factorial` for `u128`: `Some(n!)`
/// when `n!` fits in the type, `None` otherwise. From `n = 129` on it first
/// sieves the primes up to `n`, so a very large `n` costs time and memory.
#[verifier::external_body]
fn checked_factorial_u128(n: u128) -> (r: Option<u128>)
    ensures
        r is Some <==> fact(n as nat) <= u128::MAX,
        r matches Some(f) ==> f as nat == fact(n as nat),
{
    Factorial::checked_factorial(&n)
}

/// Relies on `factorial::Factorial::factorial` for `u128`: `n!`, which panics
/// only where the checked factorial gives `None`.
#[verifier::external_body]
fn factorial_u128(n: u128) -> (r: u128)
    requires
        fact(n as nat) <= u128::MAX,
    ensures
        r as nat == fact(n as nat),
{
    Factorial::factorial(&n)
}

impl FactorialNum for u128 {
    open spec fn value(&self) -> nat {
        *self as nat
    }

    open spec fn fits(v: nat) -> bool {
        v <= u128::MAX
    }

    open spec fn has_factorial(n: nat) -> bool {
        fact(n) <= u128::MAX
    }

    proof fn lemma_fits_below(a: nat, b: nat) {
    }

    proof fn lemma_has_factorial_below(n: nat, m: nat) {
        lemma_fact_monotone(m, n);
    }

    fn checked_factorial(&self) -> (r: Option<u128>) {
        checked_factorial_u128(*self)
    }

    fn factorial(&self) -> (r: u128) {
        factorial_u128(*self)
    }

    fn minus(&self, other: &u128) -> (r: u128) {
        *self - *other
    }

    fn times(&self, other: &u128) -> (r: u128) {
        *self * *other
    }

    fn quotient(&self, other: &u128) -> (r: u128) {
        *self / *other
    }

    fn less_than(&self, other: &u128) -> (r: bool) {
        *self < *other
    }
}

/// Relies on `factorial::Factorial::checked_factorial` for `usize`: `Some(n!)`
/// when `n!` fits in the type, `None` otherwise. From `n = 129` on it first
/// sieves the primes up to `n`, so a very large `n` costs time and memory.
#[verifier::external_body]
fn checked_factorial_usize(n: usize) -> (r: Option<usize>)
    ensures
        r is Some <==> fact(n as nat) <= usize::MAX,
        r matches Some(f) ==> f as nat == fact(n as nat),
{
    Factorial::checked_factorial(&n)
}

/// Relies on `factorial::Factorial::factorial` for `usize`: `n!`, which panics
/// only where the checked factorial gives `None`.
#[verifier::external_body]
fn factorial_usize(n: usize) -> (r: usize)
    requires
        fact(n as nat) <= usize::MAX,
    ensures
        r as nat == fact(n as nat),
{
    Factorial::factorial(&n)
}

impl FactorialNum for usize {
    open spec fn value(&self) -> nat {
        *self as nat
    }

    open spec fn fits(v: nat) -> bool {
        v <= usize::MAX
    }

    open spec fn has_factorial(n: nat) -> bool {
        fact(n) <= usize::MAX
    }

    proof fn lemma_fits_below(a: nat, b: nat) {
    }

    proof fn lemma_has_factorial_below(n: nat, m: nat) {
        lemma_fact_monotone(m, n);
    }

    fn checked_factorial(&self) -> (r: Option<usize>) {
        checked_factorial_usize(*self)
    }

    fn factorial(&self) -> (r: usize) {
        factorial_usize(*self)
    }

    fn minus(&self, other: &usize) -> (r: usize) {
        *self - *other
    }

    fn times(&self, other: &usize) -> (r: usize) {
        *self * *other
    }

    fn quotient(&self, other: &usize) -> (r: usize) {
        *self / *other
    }

    fn less_than(&self, other: &usize) -> (r: bool) {
        *self < *other
    }
}

} // verus!
