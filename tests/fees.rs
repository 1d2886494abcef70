use crowdfunding::contract::CrowdfundingContract;
use crowdfunding::errors::CrowdfundingError;
use crowdfunding::fees::calculate_platform_fee;

#[test]
fn zero_fee_on_zero_bps() {
    assert_eq!(calculate_platform_fee(1_000_000, 0).unwrap(), 0);
}

#[test]
fn zero_fee_on_zero_amount() {
    assert_eq!(calculate_platform_fee(0, 250).unwrap(), 0);
}

#[test]
fn two_and_a_half_percent_small_amount() {
    assert_eq!(calculate_platform_fee(1_000, 250).unwrap(), 25);
}

#[test]
fn two_and_a_half_percent_large_amount() {
    assert_eq!(calculate_platform_fee(10_000_000_000, 250).unwrap(), 250_000_000);
}

#[test]
fn one_percent() {
    assert_eq!(calculate_platform_fee(5_000, 100).unwrap(), 50);
}

#[test]
fn full_hundred_percent() {
    assert_eq!(calculate_platform_fee(888, 10_000).unwrap(), 888);
}

#[test]
fn flooring_behaviour() {
    assert_eq!(calculate_platform_fee(1, 300).unwrap(), 0);
    assert_eq!(calculate_platform_fee(1, 5_000).unwrap(), 0);
}

#[test]
fn max_i128_amount_does_not_overflow() {
    let result = calculate_platform_fee(i128::MAX, 250);
    assert!(result.is_ok(), "should not overflow for i128::MAX");
    let fee = result.unwrap();
    assert!(fee > 0);
    assert!(fee < i128::MAX);
}

#[test]
fn large_realistic_amount() {
    let one_billion_xlm_stroops: i128 = 10_000_000_000_000_000;
    let fee = calculate_platform_fee(one_billion_xlm_stroops, 250).unwrap();
    assert_eq!(fee, 250_000_000_000_000);
}

#[test]
fn rejects_negative_amount() {
    let err = calculate_platform_fee(-1, 250).unwrap_err();
    assert_eq!(err, CrowdfundingError::InvalidAmount);
}

#[test]
fn rejects_basis_points_over_ten_thousand() {
    let err = calculate_platform_fee(1_000, 10_001).unwrap_err();
    assert_eq!(err, CrowdfundingError::InvalidFeeBasisPoints);
}

#[test]
fn rejects_extreme_basis_points() {
    let err = calculate_platform_fee(1_000, u32::MAX).unwrap_err();
    assert_eq!(err, CrowdfundingError::InvalidFeeBasisPoints);
}

#[test]
fn max_amount_divides_before_multiplying() {
    // i128::MAX * 250 does not fit, so the amount is divided first.
    let fee = calculate_platform_fee(i128::MAX, 250).unwrap();
    assert_eq!(fee, (i128::MAX / 10_000) * 250);
}

#[test]
fn fee_is_deterministic_proportional_and_additive() {
    let a: i128 = 123_457;
    let b: i128 = 987_651;
    let rate: u32 = 333;
    let fa = calculate_platform_fee(a, rate).unwrap();
    assert_eq!(fa, calculate_platform_fee(a, rate).unwrap());
    let f2a = calculate_platform_fee(2 * a, rate).unwrap();
    assert!(2 * fa <= f2a && f2a <= 2 * fa + 1);
    let fb = calculate_platform_fee(b, rate).unwrap();
    let fab = calculate_platform_fee(a + b, rate).unwrap();
    assert!(fa + fb <= fab && fab <= fa + fb + 1);
}

#[test]
fn test_calculate_platform_fee_zero_amount() {
    let fee = CrowdfundingContract::calculate_platform_fee(0, 250);
    assert_eq!(fee, 0, "fee on zero amount should be zero");
}

#[test]
fn test_calculate_platform_fee_zero_bps() {
    let fee = CrowdfundingContract::calculate_platform_fee(10_000, 0);
    assert_eq!(fee, 0, "fee with zero bps should be zero");
}

#[test]
fn test_calculate_platform_fee_standard_case() {
    let fee = CrowdfundingContract::calculate_platform_fee(10_000, 250);
    assert_eq!(fee, 250);
}

#[test]
fn test_calculate_platform_fee_1_percent() {
    let fee = CrowdfundingContract::calculate_platform_fee(50_000, 100);
    assert_eq!(fee, 500);
}

#[test]
fn test_calculate_platform_fee_5_percent() {
    let fee = CrowdfundingContract::calculate_platform_fee(20_000, 500);
    assert_eq!(fee, 1_000);
}

#[test]
fn test_calculate_platform_fee_10_percent() {
    let fee = CrowdfundingContract::calculate_platform_fee(100_000, 1_000);
    assert_eq!(fee, 10_000);
}

#[test]
fn test_calculate_platform_fee_100_percent() {
    let fee = CrowdfundingContract::calculate_platform_fee(5_000, 10_000);
    assert_eq!(fee, 5_000);
}

#[test]
fn test_calculate_platform_fee_small_amount() {
    let fee = CrowdfundingContract::calculate_platform_fee(100, 250);
    assert_eq!(fee, 2);
}

#[test]
fn test_calculate_platform_fee_rounding_down() {
    let fee = CrowdfundingContract::calculate_platform_fee(101, 250);
    assert_eq!(fee, 2);
}

#[test]
fn test_calculate_platform_fee_fractional_bps() {
    let fee = CrowdfundingContract::calculate_platform_fee(100_000, 1);
    assert_eq!(fee, 10);
}

#[test]
fn test_calculate_platform_fee_large_amount() {
    let fee = CrowdfundingContract::calculate_platform_fee(1_000_000_000, 250);
    assert_eq!(fee, 25_000_000);
}

#[test]
fn test_calculate_platform_fee_very_large_amount() {
    let fee = CrowdfundingContract::calculate_platform_fee(1_000_000_000_000, 100);
    assert_eq!(fee, 10_000_000_000);
}

#[test]
fn test_calculate_platform_fee_stellar_xlm_amounts() {
    let fee = CrowdfundingContract::calculate_platform_fee(1_000_000_000, 250);
    assert_eq!(fee, 25_000_000);
}

#[test]
fn test_calculate_platform_fee_multiple_scenarios() {
    let test_cases = vec![
        (1_000, 250, 25),
        (5_000, 250, 125),
        (10_000, 250, 250),
        (100_000, 250, 2_500),
        (1_000_000, 250, 25_000),
        (10_000_000, 250, 250_000),
    ];
    for (amount, bps, expected) in test_cases {
        let fee = CrowdfundingContract::calculate_platform_fee(amount, bps);
        assert_eq!(
            fee, expected,
            "Failed for amount={}, bps={}, expected={}",
            amount, bps, expected
        );
    }
}

#[test]
fn test_calculate_platform_fee_edge_case_max_safe_amount() {
    let safe_max = i128::MAX / 10_001;
    let fee = CrowdfundingContract::calculate_platform_fee(safe_max, 100);
    assert!(fee > 0, "fee should be positive for large amounts");
}

#[test]
fn test_calculate_platform_fee_precision() {
    let fee = CrowdfundingContract::calculate_platform_fee(1_000, 50);
    assert_eq!(fee, 5);
    let fee = CrowdfundingContract::calculate_platform_fee(10_000, 25);
    assert_eq!(fee, 25);
    let fee = CrowdfundingContract::calculate_platform_fee(100_000, 10);
    assert_eq!(fee, 100);
}

#[test]
fn test_calculate_platform_fee_consistency() {
    let amount = 50_000;
    let bps = 250;
    let fee1 = CrowdfundingContract::calculate_platform_fee(amount, bps);
    let fee2 = CrowdfundingContract::calculate_platform_fee(amount, bps);
    assert_eq!(fee1, fee2, "fee calculation should be deterministic");
}

#[test]
fn test_calculate_platform_fee_proportionality() {
    let amount = 10_000;
    let bps = 250;
    let fee1 = CrowdfundingContract::calculate_platform_fee(amount, bps);
    let fee2 = CrowdfundingContract::calculate_platform_fee(amount * 2, bps);
    assert_eq!(fee2, fee1 * 2, "fee should scale proportionally");
}

#[test]
fn test_calculate_platform_fee_additivity() {
    let amount_a = 5_000;
    let amount_b = 3_000;
    let bps = 250;
    let fee_a = CrowdfundingContract::calculate_platform_fee(amount_a, bps);
    let fee_b = CrowdfundingContract::calculate_platform_fee(amount_b, bps);
    let fee_combined = CrowdfundingContract::calculate_platform_fee(amount_a + amount_b, bps);
    assert_eq!(
        fee_combined,
        fee_a + fee_b,
        "fee should be additive (within rounding)"
    );
}

#[test]
fn test_calculate_platform_fee_realistic_pool_scenarios() {
    struct Scenario {
        description: &'static str,
        amount: i128,
        bps: u32,
        expected_fee: i128,
    }
    let scenarios = vec![
        Scenario {
            description: "Small community pool - $500 raised",
            amount: 500_00,
            bps: 250,
            expected_fee: 12_50,
        },
        Scenario {
            description: "Medium education fund - $5,000 raised",
            amount: 5_000_00,
            bps: 250,
            expected_fee: 125_00,
        },
        Scenario {
            description: "Large medical campaign - $50,000 raised",
            amount: 50_000_00,
            bps: 250,
            expected_fee: 1_250_00,
        },
        Scenario {
            description: "Mega disaster relief - $1,000,000 raised",
            amount: 1_000_000_00,
            bps: 250,
            expected_fee: 25_000_00,
        },
    ];
    for scenario in scenarios {
        let fee = CrowdfundingContract::calculate_platform_fee(scenario.amount, scenario.bps);
        assert_eq!(
            fee, scenario.expected_fee,
            "Failed for scenario: {}",
            scenario.description
        );
    }
}

#[test]
fn contract_fee_divides_first_when_the_product_overflows() {
    let fee = CrowdfundingContract::calculate_platform_fee(i128::MAX, 10_000);
    assert_eq!(fee, calculate_platform_fee(i128::MAX, 10_000).unwrap());
    assert_eq!(fee, (i128::MAX / 10_000) * 10_000);
}

#[test]
fn contract_version_is_reported() {
    assert_eq!(CrowdfundingContract::get_contract_version(), "1.2.0");
}
