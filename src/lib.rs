//! Binomial coefficients `C(n, r) = n! / (r! * (n - r)!)` over any numeric
//! domain that can compute factorials: fixed-width unsigned integers and
//! arbitrary-precision `BigUint`.
//!
//! [`Combination::try_result`] checks the pair and each factorial term and
//! reports which step failed; [`Combination::get_result_uncheck`] computes
//! directly and asks its caller to have established validity beforehand.

mod factorial_num;
mod big;
mod combination;
mod laws;

pub use factorial_num::{fact, FactorialNum};
pub use combination::{
    binomial, checked_binomial, Combination, ERR_BOTTOM_LEFT_OVERFLOW,
    ERR_BOTTOM_RIGHT_OVERFLOW, ERR_N_LESS_THAN_R, ERR_TOP_OVERFLOW,
};
pub use big::big_value;
pub use laws::{
    lemma_big_never_overflows, lemma_boundary,
    lemma_checked_agrees_with_unchecked, lemma_invalid_pair_rejected,
    lemma_overflow_threshold, lemma_symmetry,
};
