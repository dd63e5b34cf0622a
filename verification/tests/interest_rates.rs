use mars_contracts::decimal::Decimal;
use mars_contracts::market::InterestRateModel;
use mars_contracts::interest_rates::{
    calculate_applied_linear_interest_rate, compute_scaled_amount, compute_underlying_amount, ScalingOperation,
};

#[test]
fn test_accumulated_index_calculation() {
    let index = Decimal::from_ratio(1, 10).unwrap();
    let rate = Decimal::from_ratio(2, 10).unwrap();
    let time_elapsed = 15768000; // half a year
    let accumulated = calculate_applied_linear_interest_rate(index, rate, time_elapsed).unwrap();

    assert_eq!(accumulated, Decimal::from_ratio(11, 100).unwrap());
}

#[test]
fn test_scaled_amount_debt() {
    let value = 5u128;
    let index = Decimal::from_ratio(3, 1).unwrap();
    let scaled_amount = compute_scaled_amount(value, index, ScalingOperation::Debt).unwrap();
    let amount = compute_underlying_amount(scaled_amount, index).unwrap();
    assert_eq!(amount, value);

    let value = 99u128;
    let index = Decimal::from_ratio(33, 1).unwrap();
    let scaled_amount = compute_scaled_amount(value, index, ScalingOperation::Debt).unwrap();
    let amount = compute_underlying_amount(scaled_amount, index).unwrap();
    assert_eq!(amount, value);

    let value = 9876542u128;
    let index = Decimal::from_ratio(3333, 10).unwrap();
    let scaled_amount = compute_scaled_amount(value, index, ScalingOperation::Debt).unwrap();
    let amount = compute_underlying_amount(scaled_amount, index).unwrap();
    assert_eq!(amount, value);

    let value = 98765432199u128;
    let index = Decimal::from_ratio(1234567, 1000).unwrap();
    let scaled_amount = compute_scaled_amount(value, index, ScalingOperation::Debt).unwrap();
    let amount = compute_underlying_amount(scaled_amount, index).unwrap();
    assert_eq!(amount, value);
}

#[test]
fn liquidity_scaling_keeps_precision_of_small_amounts() {
    // 6.123456 UST at an index of 10: the scaling factor keeps the digits a plain division
    // would drop, and descaling never gives back more than was deposited
    let index = Decimal::from_ratio(10, 1).unwrap();
    let scaled = compute_scaled_amount(6123456, index, ScalingOperation::Liquidity).unwrap();
    assert_eq!(scaled, 612345600000);
    let amount = compute_underlying_amount(scaled, index).unwrap();
    assert_eq!(amount, 6123456);
}

#[test]
fn debt_scaling_rounds_up() {
    // 10 / 3 units of debt: the scaled debt is rounded up, the liquidity down
    let index = Decimal::from_ratio(3, 1).unwrap();
    let debt = compute_scaled_amount(10, index, ScalingOperation::Debt).unwrap();
    let liquidity = compute_scaled_amount(10, index, ScalingOperation::Liquidity).unwrap();
    assert_eq!(liquidity, 3333333);
    assert_eq!(debt, 3333334);
    assert!(compute_underlying_amount(debt, index).unwrap() >= 10);
    assert!(compute_underlying_amount(liquidity, index).unwrap() <= 10);
}

#[test]
fn borrow_rate_follows_the_kinked_model() {
    let model = InterestRateModel {
        optimal_utilization_rate: Decimal::from_ratio(80, 100).unwrap(),
        base: Decimal::zero(),
        slope_1: Decimal::from_ratio(7, 100).unwrap(),
        slope_2: Decimal::from_ratio(45, 100).unwrap(),
    };
    let rate = |u: u128| model.get_borrow_rate(Decimal::from_ratio(u, 100).unwrap()).unwrap();
    // zero utilization pays the base rate
    assert_eq!(rate(0), Decimal::zero());
    // half the optimal utilization pays half of the first slope
    assert_eq!(rate(40), Decimal::from_ratio(35, 1000).unwrap());
    // at the optimum the whole first slope
    assert_eq!(rate(80), Decimal::from_ratio(7, 100).unwrap());
    // full utilization adds the whole second slope
    assert_eq!(rate(100), Decimal::from_ratio(52, 100).unwrap());
    // never falling as utilization rises
    let mut last = Decimal::zero();
    for u in 0..=100u128 {
        let r = rate(u);
        assert!(r.atomics >= last.atomics);
        last = r;
    }
    // depositors earn the borrow rate times utilization, less the reserve factor
    let br = rate(50);
    let lr = model.get_liquidity_rate(br, Decimal::from_ratio(50, 100).unwrap(), Decimal::from_ratio(1, 10).unwrap()).unwrap();
    assert!(lr.atomics <= br.atomics);
    assert_eq!(lr, Decimal::raw(19_687_500_000_000_000));
}
