use injex_staking::accrual::{calculate_ci, calculate_reward, ONE, PERCENTS, SECONDS_IN_YEAR};
use injex_staking::error::StdError;
use injex_staking::timestamp::Timestamp;
use injex_staking::uint256::Uint256;

fn n(value: u128) -> Uint256 {
    Uint256::from_u128(value)
}

fn max() -> Uint256 {
    Uint256::from_be_bytes([0xff; 32])
}

#[test]
fn constants_are_the_documented_ones() {
    assert_eq!(ONE, 1_000_000_000_000_000_000);
    assert_eq!(SECONDS_IN_YEAR, 31_536_000);
    assert_eq!(PERCENTS, 10_000);
}

#[test]
fn index_after_two_hundred_seconds_at_twenty_percent() {
    // growth = 2000 * 200 * 10^18 / (31_536_000 * 10_000), rounded down
    assert_eq!(calculate_ci(n(ONE), n(2000), n(200)), Ok(n(1_000_001_268_391_679_350)));
}

#[test]
fn index_after_one_year_at_twenty_percent() {
    assert_eq!(
        calculate_ci(n(ONE), n(2000), n(SECONDS_IN_YEAR)),
        Ok(n(1_200_000_000_000_000_000))
    );
}

#[test]
fn index_compounds_on_itself() {
    // a second year at 20% on an index of 1.2 gives 1.44
    assert_eq!(
        calculate_ci(n(1_200_000_000_000_000_000), n(2000), n(SECONDS_IN_YEAR)),
        Ok(n(1_440_000_000_000_000_000))
    );
}

#[test]
fn index_stays_over_zero_seconds() {
    assert_eq!(calculate_ci(n(ONE), n(2000), n(0)), Ok(n(ONE)));
    assert_eq!(calculate_ci(n(123_456_789), n(u128::MAX), n(0)), Ok(n(123_456_789)));
}

#[test]
fn index_stays_at_rate_zero() {
    assert_eq!(calculate_ci(n(ONE), n(0), n(1_000_000)), Ok(n(ONE)));
}

#[test]
fn index_rounds_down() {
    // growth = 1 * 1 * 10^18 / 315_360_000_000 = 3_170_979; 7 * (10^18 + 3_170_979) / 10^18 = 7
    assert_eq!(calculate_ci(n(7), n(1), n(1)), Ok(n(7)));
    // 10^18 * (10^18 + 3_170_979) / 10^18
    assert_eq!(calculate_ci(n(ONE), n(1), n(1)), Ok(n(ONE + 3_170_979)));
}

#[test]
fn index_never_falls() {
    let mut ci = n(ONE);
    for elapsed in [0u128, 1, 59, 3_600, 86_400, 31_536_000] {
        let next = calculate_ci(ci, n(2000), n(elapsed)).unwrap();
        assert!(!next.lt(&ci));
        ci = next;
    }
}

#[test]
fn index_overflow_is_an_error() {
    assert_eq!(calculate_ci(max(), n(1), n(1)), Err(StdError::Overflow));
    assert_eq!(calculate_ci(n(ONE), max(), n(2)), Err(StdError::Overflow));
    assert_eq!(calculate_ci(n(ONE), n(u128::MAX), n(u128::MAX)), Err(StdError::Overflow));
}

#[test]
fn reward_of_a_million_units_after_two_hundred_seconds() {
    // 1_000_000 * 1_268_391_679_350 / 10^18 = 1.268..., rounded down
    assert_eq!(calculate_reward(n(1_000_000), n(1_000_001_268_391_679_350), n(ONE)), Ok(n(1)));
    assert_eq!((1_000_000u128 * 200 * 2000) / (31_536_000 * 10_000), 1);
}

#[test]
fn reward_of_one_token_after_one_year() {
    assert_eq!(
        calculate_reward(n(ONE), n(1_200_000_000_000_000_000), n(ONE)),
        Ok(n(200_000_000_000_000_000))
    );
}

#[test]
fn reward_takes_the_rise_of_the_index_not_the_index() {
    assert_eq!(calculate_reward(n(ONE), n(3 * ONE), n(ONE)), Ok(n(2 * ONE)));
    assert_eq!(calculate_reward(n(5), n(3 * ONE), n(2 * ONE)), Ok(n(5)));
}

#[test]
fn reward_at_the_checkpoint_is_nothing() {
    assert_eq!(calculate_reward(n(ONE), n(ONE), n(ONE)), Ok(n(0)));
    assert_eq!(calculate_reward(max(), n(12345), n(12345)), Ok(n(0)));
}

#[test]
fn reward_without_stake_is_nothing() {
    assert_eq!(calculate_reward(n(0), n(5 * ONE), n(ONE)), Ok(n(0)));
    assert_eq!(calculate_reward(n(0), max(), n(0)), Ok(n(0)));
}

#[test]
fn reward_below_the_checkpoint_is_an_error() {
    assert_eq!(calculate_reward(n(1), n(ONE), n(ONE + 1)), Err(StdError::Overflow));
    assert_eq!(calculate_reward(n(0), n(ONE), n(ONE + 1)), Err(StdError::Overflow));
}

#[test]
fn reward_overflow_is_an_error() {
    assert_eq!(calculate_reward(max(), n(ONE + 2), n(ONE)), Err(StdError::Overflow));
}

#[test]
fn numbers_from_u128_are_big_endian() {
    let mut bytes = [0u8; 32];
    bytes[30] = 1;
    bytes[31] = 2;
    assert_eq!(n(258).to_be_bytes(), bytes);
    assert_eq!(Uint256::from_be_bytes(bytes), n(258));
    let mut top = [0u8; 32];
    for b in top.iter_mut().skip(16) {
        *b = 0xff;
    }
    assert_eq!(n(u128::MAX).to_be_bytes(), top);
}

#[test]
fn numbers_agree_with_the_outside_integers() {
    for value in [0u128, 1, 255, 256, 65_535, ONE, u128::MAX] {
        assert_eq!(
            n(value).to_be_bytes(),
            cosmwasm_std::Uint256::from_u128(value).to_be_bytes()
        );
    }
}

#[test]
fn numbers_zero() {
    assert_eq!(Uint256::zero().to_be_bytes(), [0u8; 32]);
    assert!(Uint256::zero().is_zero());
    assert!(n(0).is_zero());
    assert!(!n(1).is_zero());
    assert!(!max().is_zero());
    let mut high = [0u8; 32];
    high[0] = 1;
    assert!(!Uint256::from_be_bytes(high).is_zero());
}

#[test]
fn numbers_are_ordered_by_value() {
    assert!(n(1).lt(&n(2)));
    assert!(!n(2).lt(&n(1)));
    assert!(!n(2).lt(&n(2)));
    assert!(n(255).lt(&n(256)));
    assert!(!n(256).lt(&n(255)));
    assert!(n(u128::MAX).lt(&max()));
    assert!(!max().lt(&n(u128::MAX)));
    let mut high = [0u8; 32];
    high[0] = 1;
    assert!(n(u128::MAX).lt(&Uint256::from_be_bytes(high)));
    assert!(n(0).lt(&max()));
}

#[test]
fn numbers_are_equal_by_value() {
    assert!(n(7) == n(7));
    assert!(n(7) != n(8));
    assert!(n(256) != n(1));
    assert!(max() == max());
}

#[test]
fn timestamps_count_nanoseconds() {
    let t = Timestamp::from_nanos(1_571_797_419_879_305_533);
    assert_eq!(t.nanos(), 1_571_797_419_879_305_533);
    assert_eq!(t.seconds(), 1_571_797_419);
    assert_eq!(Timestamp::from_seconds(5).nanos(), 5_000_000_000);
    assert_eq!(Timestamp::from_seconds(0), Timestamp::from_nanos(0));
    assert_eq!(t.plus_seconds(200).nanos(), 1_571_797_619_879_305_533);
    assert_eq!(t.plus_seconds(200).seconds() - t.seconds(), 200);
    assert_eq!(Timestamp::from_nanos(999_999_999).seconds(), 0);
}

#[test]
fn timestamps_agree_with_the_outside_ones() {
    let outside = cosmwasm_std::Timestamp::from_nanos(1_571_797_419_879_305_533);
    let t = Timestamp::from_nanos(outside.nanos());
    assert_eq!(t.seconds(), outside.seconds());
    assert_eq!(t.plus_seconds(500).nanos(), outside.plus_seconds(500).nanos());
}

fn decimal(text: &str) -> Uint256 {
    let value: cosmwasm_std::Uint256 = text.parse().unwrap();
    Uint256::from_be_bytes(value.to_be_bytes())
}

fn power_of_two(exponent: usize) -> Uint256 {
    let mut bytes = [0u8; 32];
    bytes[31 - exponent / 8] = 1 << (exponent % 8);
    Uint256::from_be_bytes(bytes)
}

#[test]
fn the_largest_number_is_two_to_the_256_less_one() {
    assert_eq!(
        max(),
        decimal("115792089237316195423570985008687907853269984665640564039457584007913129639935")
    );
    assert_eq!(power_of_two(0), n(1));
    assert_eq!(power_of_two(127), n(1 << 127));
    assert!(power_of_two(255).lt(&max()));
}

#[test]
fn a_product_of_exactly_two_to_the_256_overflows() {
    // 2^254 * 4 = 2^256
    assert_eq!(calculate_reward(power_of_two(254), n(4), n(0)), Err(StdError::Overflow));
    // 2^128 * 2^128 = 2^256
    assert_eq!(
        calculate_reward(power_of_two(128), power_of_two(128), n(0)),
        Err(StdError::Overflow)
    );
}

#[test]
fn a_product_just_below_two_to_the_256_fits() {
    // 2^254 * 3 / 10^18
    assert_eq!(
        calculate_reward(power_of_two(254), n(3), n(0)),
        Ok(decimal("86844066927987146567678238756515930889952488499230423029593"))
    );
    // 2^128 * (2^128 - 1) / 10^18
    assert_eq!(
        calculate_reward(power_of_two(128), n(u128::MAX), n(0)),
        Ok(decimal("115792089237316195423570985008687907852929702298719625575994"))
    );
}

#[test]
fn a_rate_and_a_time_whose_product_passes_256_bits_overflow() {
    // 2^100 * 2^100 * 10^18 lies above 2^256
    assert_eq!(
        calculate_ci(n(1), power_of_two(100), power_of_two(100)),
        Err(StdError::Overflow)
    );
    // 2^98 * 2^98 * 10^18 lies below it
    assert_eq!(
        calculate_ci(n(1), power_of_two(98), power_of_two(98)),
        Ok(decimal("318472944464062950981014176722864861293879017984"))
    );
    // and the second product can still pass it
    assert_eq!(
        calculate_ci(max(), power_of_two(98), power_of_two(98)),
        Err(StdError::Overflow)
    );
}
