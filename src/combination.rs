use vstd::prelude::*;
use crate::factorial_num::{fact, lemma_fact_positive, FactorialNum};

verus! {

/// Returned when `n < r`.
pub const ERR_N_LESS_THAN_R: &'static str = "N should not be less than R";

/// Returned when the domain cannot compute `n!`.
pub const ERR_TOP_OVERFLOW: &'static str = "Overflowed at top factorial";

/// Returned when the domain cannot compute `r!`.
pub const ERR_BOTTOM_LEFT_OVERFLOW: &'static str = "Overflowed at bottom left factorial";

/// Returned when the domain cannot compute `(n - r)!`.
pub const ERR_BOTTOM_RIGHT_OVERFLOW: &'static str = "Overflowed at bottom right factorial";

/// `n! / (r! * (n - r)!)`, the number of ways to choose `r` of `n` items.
pub open spec fn binomial(n: nat, r: nat) -> nat {
    fact(n) / (fact(r) * fact((n - r) as nat))
}

/// What checked evaluation of the pair `(n, r)` yields in domain `T`: the
/// first failing step in the order pair, top, bottom left, bottom right,
/// or the binomial coefficient.
pub open spec fn checked_binomial<T: FactorialNum>(n: nat, r: nat) -> Result<nat, &'static str> {
    if n < r {
        Err(ERR_N_LESS_THAN_R)
    } else if !T::has_factorial(n) {
        Err(ERR_TOP_OVERFLOW)
    } else if !T::has_factorial(r) {
        Err(ERR_BOTTOM_LEFT_OVERFLOW)
    } else if !T::has_factorial((n - r) as nat) {
        Err(ERR_BOTTOM_RIGHT_OVERFLOW)
    } else {
        Ok(binomial(n, r))
    }
}

/// `r! * (n - r)!` never exceeds `n!`.
pub proof fn lemma_denominator_le_numerator(n: nat, r: nat)
    requires
        r <= n,
    ensures
        fact(r) * fact((n - r) as nat) <= fact(n),
        fact(r) * fact((n - r) as nat) > 0,
    decreases n - r,
{
    lemma_fact_positive(r);
    lemma_fact_positive((n - r) as nat);
    assert(fact(r) * fact((n - r) as nat) > 0) by (nonlinear_arith)
        requires
            fact(r) >= 1,
            fact((n - r) as nat) >= 1,
    ;
    if r < n {
        let k = (n - r) as nat;
        let m = (n - 1) as nat;
        lemma_denominator_le_numerator(m, r);
        assert((m - r) as nat == (k - 1) as nat);
        assert(fact(k) == k * fact((k - 1) as nat));
        assert(fact(n) == n * fact(m));
        assert(fact(r) * fact(k) <= fact(n)) by (nonlinear_arith)
            requires
                fact(k) == k * fact((k - 1) as nat),
                fact(n) == n * fact(m),
                fact(r) * fact((k - 1) as nat) <= fact(m),
                k <= n,
                k >= 1,
                fact(r) >= 1,
        ;
    } else {
        assert(fact((n - r) as nat) == 1);
        assert(fact(r) * 1 == fact(r));
    }
}

/// A pair `(n, r)` whose binomial coefficient is asked for. Building one
/// checks nothing: `n < r` is only rejected when it is evaluated.
pub struct Combination<T: FactorialNum> {
    n: T,
    r: T,
}

impl<T: FactorialNum> View for Combination<T> {
    type V = (nat, nat);

    /// The pair `(n, r)` as natural numbers.
    closed spec fn view(&self) -> (nat, nat) {
        (self.n.value(), self.r.value())
    }
}

impl<T: FactorialNum> Combination<T> {
    pub fn new(n: T, r: T) -> (c: Combination<T>)
        ensures
            c@ == (n.value(), r.value()),
    {
        Combination { n, r }
    }

    /// Checks that `n >= r` and that each of `n!`, `r!` and `(n - r)!` can be
    /// computed, in that order, and gives the first failure or the result.
    pub fn try_result(&self) -> (res: Result<T, &'static str>)
        ensures
            match res {
                Ok(v) => checked_binomial::<T>(self@.0, self@.1) == Ok::<nat, &'static str>(
                    v.value(),
                ),
                Err(e) => checked_binomial::<T>(self@.0, self@.1) == Err::<nat, &'static str>(e),
            },
    {
        if self.n.less_than(&self.r) {
            return Err(ERR_N_LESS_THAN_R);
        }
        let top = match self.n.checked_factorial() {
            Some(top) => top,
            None => return Err(ERR_TOP_OVERFLOW),
        };
        let bot_left = match self.r.checked_factorial() {
            Some(bot_left) => bot_left,
            None => return Err(ERR_BOTTOM_LEFT_OVERFLOW),
        };
        let bot_right = match self.n.minus(&self.r).checked_factorial() {
            Some(bot_right) => bot_right,
            None => return Err(ERR_BOTTOM_RIGHT_OVERFLOW),
        };
        proof {
            let (n, r) = self@;
            lemma_denominator_le_numerator(n, r);
            T::lemma_has_factorial_below(n, r);
            T::lemma_fits_below(fact(n), fact(r) * fact((n - r) as nat));
        }
        Ok(top.quotient(&bot_left.times(&bot_right)))
    }

    /// Computes `n! / (r! * (n - r)!)` with no checks; the caller must know
    /// that `n >= r` and that `n!` can be computed in the domain.
    pub fn get_result_uncheck(&self) -> (res: T)
        requires
            self@.1 <= self@.0,
            T::has_factorial(self@.0),
        ensures
            res.value() == binomial(self@.0, self@.1),
    {
        let ghost (n, r) = self@;
        proof {
            lemma_denominator_le_numerator(n, r);
            T::lemma_has_factorial_below(n, r);
            T::lemma_has_factorial_below(n, (n - r) as nat);
            T::lemma_fits_below(fact(n), fact(r) * fact((n - r) as nat));
        }
        let top = self.n.factorial();
        let bot_left = self.r.factorial();
        let bot_right = self.n.minus(&self.r).factorial();
        top.quotient(&bot_left.times(&bot_right))
    }
}

} // verus!
