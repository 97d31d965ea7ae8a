use anchor_amm::curve::{
    amount_after_fee, compute_swap_output, compute_withdrawal_amounts, AssetSide, BPS_DENOMINATOR,
};
use anchor_amm::errors::AmmError;

fn product(a: u64, b: u64) -> u128 {
    (a as u128) * (b as u128)
}

#[test]
fn fee_is_retained_from_the_input() {
    assert_eq!(amount_after_fee(1000, 30), 997);
    assert_eq!(amount_after_fee(10_000, 1), 9_999);
    assert_eq!(amount_after_fee(1, 30), 0);
    assert_eq!(amount_after_fee(0, 30), 0);
}

#[test]
fn zero_fee_keeps_the_whole_input() {
    assert_eq!(amount_after_fee(123_456_789, 0), 123_456_789);
    assert_eq!(amount_after_fee(u64::MAX, 0), u64::MAX);
}

#[test]
fn full_fee_retains_everything() {
    assert_eq!(BPS_DENOMINATOR, 10_000);
    assert_eq!(amount_after_fee(123_456_789, BPS_DENOMINATOR), 0);
    assert_eq!(amount_after_fee(u64::MAX, BPS_DENOMINATOR), 0);
}

#[test]
fn fee_on_the_largest_input_does_not_overflow() {
    let expected: u128 = (u64::MAX as u128) * 9_970 / 10_000;
    assert_eq!(amount_after_fee(u64::MAX, 30) as u128, expected);
}

#[test]
fn swap_of_one_thousand_against_a_million_each() {
    let expected: u64 = 1_000_000 - ((1_000_000u128 * 1_000_000u128) / (1_000_000u128 + 997u128)) as u64;
    assert_eq!(expected, 997);
    assert_eq!(
        compute_swap_output(1_000_000, 1_000_000, 1_000_000, 30, 1000, 900, AssetSide::X),
        Ok(997)
    );
}

#[test]
fn swap_output_does_not_depend_on_side_or_supply() {
    let a = compute_swap_output(500_000, 2_000_000, 1, 25, 12_345, 0, AssetSide::X);
    let b = compute_swap_output(500_000, 2_000_000, 0, 25, 12_345, 0, AssetSide::Y);
    let c = compute_swap_output(500_000, 2_000_000, u64::MAX, 25, 12_345, 0, AssetSide::Y);
    let net: u128 = 12_345u128 * 9_975 / 10_000;
    let expected: u64 = 2_000_000 - ((500_000u128 * 2_000_000u128) / (500_000u128 + net)) as u64;
    assert_eq!(a, Ok(expected));
    assert_eq!(b, Ok(expected));
    assert_eq!(c, Ok(expected));
}

#[test]
fn swap_meeting_the_minimum_exactly_is_accepted() {
    assert_eq!(
        compute_swap_output(1_000_000, 1_000_000, 1_000_000, 30, 1000, 997, AssetSide::X),
        Ok(997)
    );
}

#[test]
fn swap_below_the_minimum_is_refused() {
    assert_eq!(
        compute_swap_output(1_000_000, 1_000_000, 1_000_000, 30, 1000, 998, AssetSide::X),
        Err(AmmError::SlippageExceeded)
    );
    assert_eq!(
        compute_swap_output(1_000_000, 1_000_000, 1_000_000, 30, 1000, u64::MAX, AssetSide::Y),
        Err(AmmError::SlippageExceeded)
    );
}

#[test]
fn swap_whose_fee_swallows_the_input_pays_nothing() {
    assert_eq!(compute_swap_output(1_000, 1_000, 1_000, 30, 1, 0, AssetSide::X), Ok(0));
    assert_eq!(
        compute_swap_output(1_000, 1_000, 1_000, 30, 1, 1, AssetSide::X),
        Err(AmmError::SlippageExceeded)
    );
    assert_eq!(compute_swap_output(1_000, 1_000, 1_000, 10_000, 999, 0, AssetSide::X), Ok(0));
}

#[test]
fn swap_never_pays_more_than_the_reserve_holds() {
    let cases: Vec<(u64, u64, u16, u64)> = vec![
        (1, 1, 0, 1),
        (1, 1, 0, u64::MAX),
        (1, u64::MAX, 0, u64::MAX),
        (u64::MAX, u64::MAX, 0, u64::MAX),
        (u64::MAX, 1, 30, 1),
        (3, 3, 0, 1),
        (1_000_000, 1_000_000, 30, 1000),
        (7, 1_000_003, 9_999, 123_456_789),
    ];
    for (reserve_in, reserve_out, fee, amount_in) in cases {
        let out = compute_swap_output(reserve_in, reserve_out, 0, fee, amount_in, 0, AssetSide::X);
        match out {
            Ok(amount_out) => assert!(amount_out <= reserve_out),
            Err(e) => panic!("refused with {:?}", e),
        }
    }
}

#[test]
fn swap_on_the_largest_reserves_does_not_overflow() {
    let net: u128 = (u64::MAX as u128) * 9_970 / 10_000;
    let kept: u128 = ((u64::MAX as u128) * (u64::MAX as u128)) / ((u64::MAX as u128) + net);
    let expected: u64 = (u64::MAX as u128 - kept) as u64;
    assert_eq!(
        compute_swap_output(u64::MAX, u64::MAX, u64::MAX, 30, u64::MAX, 0, AssetSide::Y),
        Ok(expected)
    );
}

#[test]
fn swap_with_a_fee_that_covers_rounding_does_not_lower_the_product() {
    let out: u64 = compute_swap_output(1_000_000, 1_000_000, 1_000_000, 30, 1000, 0, AssetSide::X)
        .unwrap();
    assert!(product(1_000_000 + 1000, 1_000_000 - out) >= product(1_000_000, 1_000_000));
    assert_eq!(product(1_000_000 + 1000, 1_000_000 - out), 1_000_002_003_000);

    let out: u64 = compute_swap_output(300, 300, 0, 30, 100, 0, AssetSide::X).unwrap();
    assert_eq!(out, 75);
    assert!(product(300 + 100, 300 - out) >= product(300, 300));
}

#[test]
fn swap_product_moves_by_fee_cover_less_truncation_remainder() {
    let cases: Vec<(u64, u64, u16, u64)> = vec![
        (3, 3, 0, 1),
        (1, 1, 1, 2),
        (300, 300, 30, 100),
        (1_000_000, 1_000_000, 30, 1000),
        (17, 4_000, 250, 33),
    ];
    for (reserve_in, reserve_out, fee, amount_in) in cases {
        let out: u64 =
            compute_swap_output(reserve_in, reserve_out, 0, fee, amount_in, 0, AssetSide::X)
                .unwrap();
        let net: u64 = amount_after_fee(amount_in, fee);
        let kept: u64 = reserve_out - out;
        let covered: u128 = product(amount_in - net, kept);
        let dropped: u128 = product(reserve_in, reserve_out) % (reserve_in as u128 + net as u128);
        let after: u128 = product(reserve_in + amount_in, kept);
        assert_eq!(after + dropped, product(reserve_in, reserve_out) + covered);
        assert_eq!(after >= product(reserve_in, reserve_out), covered >= dropped);
    }
}

#[test]
fn swap_without_fee_rounds_the_output_up() {
    let out: u64 = compute_swap_output(3, 3, 3, 0, 1, 0, AssetSide::X).unwrap();
    assert_eq!(out, 1);
    assert_eq!(product(3 + 1, 3 - out), 8);
    assert!(product(3 + 1, 3 - out) < product(3, 3));
}

#[test]
fn round_trip_returns_less_than_was_put_in() {
    let out: u64 = compute_swap_output(300, 300, 0, 30, 100, 0, AssetSide::X).unwrap();
    assert_eq!(out, 75);
    let back: u64 = compute_swap_output(300 - out, 300 + 100, 0, 30, out, 0, AssetSide::Y).unwrap();
    assert_eq!(back, 99);
    assert!(back < 100);

    let out: u64 = compute_swap_output(1_000_000, 1_000_000, 0, 30, 1000, 0, AssetSide::X).unwrap();
    let back: u64 =
        compute_swap_output(1_000_000 - out, 1_000_000 + 1000, 0, 30, out, 0, AssetSide::Y).unwrap();
    assert_eq!(back, 995);
    assert!(back < 1000);
}

#[test]
fn round_trip_without_fee_and_exact_division_returns_the_input() {
    let out: u64 = compute_swap_output(100, 200, 0, 0, 100, 0, AssetSide::X).unwrap();
    assert_eq!(out, 100);
    assert_eq!(product(100 + 100, 200 - out), product(100, 200));
    let back: u64 = compute_swap_output(200 - out, 100 + 100, 0, 0, out, 0, AssetSide::Y).unwrap();
    assert_eq!(back, 100);
    assert!(back <= 100);
}

#[test]
fn round_trip_after_a_leg_that_lowered_the_product_can_return_more() {
    let out: u64 = compute_swap_output(1, 3, 0, 0, 1, 0, AssetSide::X).unwrap();
    assert_eq!(out, 2);
    assert!(product(1 + 1, 3 - out) < product(1, 3));
    let back: u64 = compute_swap_output(3 - out, 1 + 1, 0, 0, out, 0, AssetSide::Y).unwrap();
    assert_eq!(back, 2);
    assert!(back > 1);
}

#[test]
fn round_trip_with_a_fee_that_rounding_outweighs_can_return_the_input() {
    let out: u64 = compute_swap_output(1, 3, 0, 1, 2, 0, AssetSide::X).unwrap();
    assert_eq!(out, 2);
    let back: u64 = compute_swap_output(3 - out, 1 + 2, 0, 1, out, 0, AssetSide::Y).unwrap();
    assert_eq!(back, 2);
}

#[test]
fn withdrawal_of_a_tenth() {
    assert_eq!(
        compute_withdrawal_amounts(1_000_000, 1_000_000, 1_000_000, 100_000, 6),
        (100_000, 100_000)
    );
}

#[test]
fn withdrawal_does_not_depend_on_rounding_decimals() {
    let a = compute_withdrawal_amounts(1_000_000, 1_000_000, 1_000_000, 100_000, 0);
    let b = compute_withdrawal_amounts(1_000_000, 1_000_000, 1_000_000, 100_000, 255);
    assert_eq!(a, (100_000, 100_000));
    assert_eq!(b, (100_000, 100_000));
}

#[test]
fn withdrawal_truncates_each_slice() {
    assert_eq!(compute_withdrawal_amounts(10, 7, 3, 1, 6), (3, 2));
    assert_eq!(compute_withdrawal_amounts(10, 7, 3, 2, 6), (6, 4));
    assert_eq!(compute_withdrawal_amounts(1, 0, 1_000, 999, 6), (0, 0));
}

#[test]
fn withdrawal_is_proportional_within_one_unit() {
    let cases: Vec<(u64, u64, u64)> = vec![
        (10, 1, 3),
        (1_000_000, 100_000, 1_000_000),
        (u64::MAX, u64::MAX - 1, u64::MAX),
        (999_999_999, 123_456, 7_654_321),
        (0, 5, 9),
    ];
    for (reserve, burned, supply) in cases {
        let (amount, same) = compute_withdrawal_amounts(reserve, reserve, supply, burned, 6);
        assert_eq!(amount, same);
        assert!(amount <= reserve);
        assert!(product(amount, supply) <= product(reserve, burned));
        assert!(product(reserve, burned) < product(amount, supply) + supply as u128);
        assert!(product(reserve - amount, supply) >= product(reserve, supply - burned));
    }
}

#[test]
fn withdrawal_of_the_whole_supply_drains_both_reserves() {
    assert_eq!(compute_withdrawal_amounts(1_000_000, 2_500_000, 777, 777, 6), (1_000_000, 2_500_000));
    assert_eq!(compute_withdrawal_amounts(u64::MAX, 1, u64::MAX, u64::MAX, 6), (u64::MAX, 1));
    assert_eq!(compute_withdrawal_amounts(0, 0, 1, 1, 6), (0, 0));
}
