use combination::{
    Combination, FactorialNum, ERR_BOTTOM_LEFT_OVERFLOW, ERR_BOTTOM_RIGHT_OVERFLOW,
    ERR_N_LESS_THAN_R, ERR_TOP_OVERFLOW,
};
use num::bigint::BigUint;

fn big(s: &str) -> BigUint {
    BigUint::parse_bytes(s.as_bytes(), 10).unwrap()
}

#[test]
fn test_combination_uncheck() {
    let s = Combination::new(10u32, 2);
    let result = s.get_result_uncheck();
    println!("{}", result);
    assert_eq!(result, 45);
}

#[test]
fn test_combination_with_check() {
    let s = Combination::new(30u128, 10);
    let result = s.try_result();
    println!("{:?}", result);
    assert_eq!(result, Ok(30045015));
}

#[test]
fn big_num_test() {
    let c = BigUint::parse_bytes(b"50", 10).unwrap();
    let r = BigUint::parse_bytes(b"30", 10).unwrap();

    let comb = Combination::new(c, r);

    let res = comb.try_result();
    assert_eq!(
        res,
        Ok(BigUint::parse_bytes(b"47129212243960", 10).unwrap())
    );
}

#[test]
fn checked_matches_unchecked_on_valid_pairs() {
    for n in 0u64..=20 {
        for r in 0u64..=n {
            let c = Combination::new(n, r);
            assert_eq!(c.try_result(), Ok(c.get_result_uncheck()));
        }
    }
}

#[test]
fn invalid_pair_is_rejected_in_every_domain() {
    assert_eq!(Combination::new(5u32, 7).try_result(), Err(ERR_N_LESS_THAN_R));
    assert_eq!(Combination::new(5u8, 7).try_result(), Err(ERR_N_LESS_THAN_R));
    assert_eq!(Combination::new(5u128, 7).try_result(), Err(ERR_N_LESS_THAN_R));
    assert_eq!(Combination::new(big("5"), big("7")).try_result(), Err(ERR_N_LESS_THAN_R));
}

#[test]
fn invalid_pair_is_rejected_before_any_overflow() {
    // 100! overflows u32, yet the pair is rejected first.
    assert_eq!(Combination::new(100u32, 200).try_result(), Err(ERR_N_LESS_THAN_R));
}

#[test]
fn symmetry_of_choices() {
    for r in 0u128..=30 {
        let a = Combination::new(30u128, r).try_result();
        let b = Combination::new(30u128, 30 - r).try_result();
        assert_eq!(a, b);
        assert!(a.is_ok());
    }
    assert_eq!(
        Combination::new(big("60"), big("25")).try_result(),
        Combination::new(big("60"), big("35")).try_result()
    );
}

#[test]
fn choosing_none_or_all_gives_one() {
    for n in 0u32..=12 {
        assert_eq!(Combination::new(n, 0).try_result(), Ok(1));
        assert_eq!(Combination::new(n, n).try_result(), Ok(1));
        assert_eq!(Combination::new(n, n).get_result_uncheck(), 1);
    }
    assert_eq!(Combination::new(big("200"), big("0")).try_result(), Ok(big("1")));
    assert_eq!(Combination::new(big("200"), big("200")).try_result(), Ok(big("1")));
}

#[test]
fn overflow_threshold_u32() {
    assert_eq!(Combination::new(12u32, 5).try_result(), Ok(792));
    assert_eq!(Combination::new(13u32, 5).try_result(), Err(ERR_TOP_OVERFLOW));
}

#[test]
fn overflow_threshold_u8() {
    assert_eq!(Combination::new(5u8, 2).try_result(), Ok(10));
    assert_eq!(Combination::new(6u8, 2).try_result(), Err(ERR_TOP_OVERFLOW));
}

#[test]
fn overflow_threshold_u16() {
    assert_eq!(Combination::new(8u16, 3).try_result(), Ok(56));
    assert_eq!(Combination::new(9u16, 3).try_result(), Err(ERR_TOP_OVERFLOW));
}

#[test]
fn overflow_threshold_u64() {
    assert_eq!(Combination::new(20u64, 10).try_result(), Ok(184756));
    assert_eq!(Combination::new(21u64, 10).try_result(), Err(ERR_TOP_OVERFLOW));
}

#[test]
fn overflow_threshold_usize() {
    assert_eq!(Combination::new(20usize, 7).try_result(), Ok(77520));
    assert_eq!(Combination::new(21usize, 7).try_result(), Err(ERR_TOP_OVERFLOW));
}

#[test]
fn overflow_threshold_u128() {
    assert_eq!(
        Combination::new(34u128, 17).try_result(),
        Ok(2333606220)
    );
    assert_eq!(Combination::new(35u128, 17).try_result(), Err(ERR_TOP_OVERFLOW));
}

#[test]
fn big_domain_does_not_overflow() {
    assert_eq!(
        Combination::new(big("100"), big("50")).try_result(),
        Ok(big("100891344545564193334812497256"))
    );
    assert_eq!(
        Combination::new(big("300"), big("2")).get_result_uncheck(),
        big("44850")
    );
}

#[test]
fn error_messages_are_distinct() {
    let all = [
        ERR_N_LESS_THAN_R,
        ERR_TOP_OVERFLOW,
        ERR_BOTTOM_LEFT_OVERFLOW,
        ERR_BOTTOM_RIGHT_OVERFLOW,
    ];
    for i in 0..all.len() {
        for j in 0..all.len() {
            assert_eq!(i == j, all[i] == all[j]);
        }
    }
    assert_eq!(ERR_N_LESS_THAN_R, "N should not be less than R");
    assert_eq!(ERR_TOP_OVERFLOW, "Overflowed at top factorial");
}

#[test]
fn fixed_width_factorials() {
    assert_eq!(5u8.checked_factorial(), Some(120));
    assert_eq!(6u8.checked_factorial(), None);
    assert_eq!(8u16.checked_factorial(), Some(40320));
    assert_eq!(9u16.checked_factorial(), None);
    assert_eq!(12u32.checked_factorial(), Some(479001600));
    assert_eq!(13u32.checked_factorial(), None);
    assert_eq!(20u64.checked_factorial(), Some(2432902008176640000));
    assert_eq!(21u64.checked_factorial(), None);
    assert_eq!(20usize.checked_factorial(), Some(2432902008176640000));
    assert_eq!(34u128.checked_factorial(), Some(295232799039604140847618609643520000000));
    assert_eq!(35u128.checked_factorial(), None);
    assert_eq!(0u32.checked_factorial(), Some(1));
    assert_eq!(FactorialNum::factorial(&4u8), 24);
    assert_eq!(FactorialNum::factorial(&7u16), 5040);
    assert_eq!(FactorialNum::factorial(&10u32), 3628800);
    assert_eq!(FactorialNum::factorial(&15u64), 1307674368000);
    assert_eq!(FactorialNum::factorial(&15usize), 1307674368000);
    assert_eq!(FactorialNum::factorial(&25u128), 15511210043330985984000000);
}

#[test]
fn big_arithmetic() {
    assert_eq!(big("25").checked_factorial(), Some(big("15511210043330985984000000")));
    assert_eq!(
        FactorialNum::factorial(&big("30")),
        big("265252859812191058636308480000000")
    );
    assert_eq!(big("1000000000000").minus(&big("1")), big("999999999999"));
    assert_eq!(big("4294967296").times(&big("4294967296")), big("18446744073709551616"));
    assert_eq!(big("100").quotient(&big("7")), big("14"));
    assert!(big("3").less_than(&big("4")));
    assert!(!big("4").less_than(&big("4")));
    assert!(!big("5").less_than(&big("4")));
}

#[test]
fn fixed_width_arithmetic() {
    assert_eq!(9u32.minus(&4), 5);
    assert_eq!(9u32.times(&4), 36);
    assert_eq!(9u32.quotient(&4), 2);
    assert!(4u32.less_than(&9));
    assert!(!9u32.less_than(&9));
}
