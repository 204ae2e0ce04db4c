use symmetry_math::accounts::{OraclePrice, TokenPriceData, TokenSettings};
use symmetry_math::math::ONE_USD;
use symmetry_math::token_swap::SymmetryMath;

fn settings(decimals: u8, fee_before_bps: u8, fee_after_bps: u8, use_curve_data: u8) -> TokenSettings {
    let mut s = TokenSettings::zero();
    s.decimals = decimals;
    s.token_swap_fee_before_tw_bps = fee_before_bps;
    s.token_swap_fee_after_tw_bps = fee_after_bps;
    s.use_curve_data = use_curve_data;
    s
}

fn flat_price(price: u64) -> OraclePrice {
    OraclePrice { sell_price: price, avg_price: price, buy_price: price, oracle_live: 1 }
}

fn zero_curve() -> TokenPriceData {
    TokenPriceData { amount: [0; 10], price: [0; 10] }
}

fn curve(amounts: &[u64], prices: &[u64]) -> TokenPriceData {
    let mut c = zero_curve();
    for (i, a) in amounts.iter().enumerate() {
        c.amount[i] = *a;
    }
    for (i, p) in prices.iter().enumerate() {
        c.price[i] = *p;
    }
    c
}

fn two_step_curve(second_price: u64) -> TokenPriceData {
    curve(&[50_000, 50_000], &[ONE_USD, second_price, second_price, second_price, second_price,
        second_price, second_price, second_price, second_price, second_price])
}

#[test]
fn selling_nothing_is_worth_nothing() {
    let c = two_step_curve(ONE_USD * 9 / 10);
    assert_eq!(
        SymmetryMath::compute_value_of_sold_token(0, settings(6, 10, 100, 1), flat_price(ONE_USD), 1_000_000, 1_000_000, c),
        0
    );
    assert_eq!(
        SymmetryMath::compute_value_of_sold_token(0, settings(6, 10, 100, 0), flat_price(ONE_USD), 0, 0, zero_curve()),
        0
    );
}

#[test]
fn no_value_buys_nothing() {
    let c = two_step_curve(ONE_USD * 11 / 10);
    assert_eq!(
        SymmetryMath::compute_amount_of_bought_token(0, settings(6, 10, 100, 1), flat_price(ONE_USD), 1_000_000, 1_000_000, c),
        0
    );
    assert_eq!(
        SymmetryMath::compute_amount_of_bought_token(0, settings(6, 10, 100, 0), flat_price(ONE_USD), 5, 0, zero_curve()),
        0
    );
}

#[test]
fn sale_without_curve_or_fees_is_amount_times_price() {
    assert_eq!(
        SymmetryMath::compute_value_of_sold_token(100_000, settings(6, 0, 0, 0), flat_price(ONE_USD), 1_000_000, 1_000_000, zero_curve()),
        100_000_000_000
    );
}

#[test]
fn sale_above_target_pays_the_after_target_fee() {
    // holding 2_000_000, target 1_000_000: all of the 500_000 is sold above target
    assert_eq!(
        SymmetryMath::compute_value_of_sold_token(500_000, settings(6, 0, 100, 0), flat_price(ONE_USD), 2_000_000, 1_000_000, zero_curve()),
        495_000_000_000
    );
}

#[test]
fn sale_below_target_pays_the_before_target_fee() {
    assert_eq!(
        SymmetryMath::compute_value_of_sold_token(50_000, settings(6, 10, 100, 0), flat_price(ONE_USD), 900_000, 1_000_000, zero_curve()),
        49_950_000_000
    );
}

#[test]
fn sale_across_target_splits_the_fee() {
    // 100_000 below target at 10 bps, 200_000 above at 100 bps
    assert_eq!(
        SymmetryMath::compute_value_of_sold_token(300_000, settings(6, 10, 100, 0), flat_price(ONE_USD), 900_000, 1_000_000, zero_curve()),
        297_900_000_000
    );
}

#[test]
fn sale_walks_down_the_curve() {
    // first 50_000 at 1.0, next 50_000 at 0.9
    assert_eq!(
        SymmetryMath::compute_value_of_sold_token(100_000, settings(6, 0, 0, 1), flat_price(ONE_USD), 1_000_000, 1_000_000, two_step_curve(ONE_USD * 9 / 10)),
        95_000_000_000
    );
}

#[test]
fn sale_with_one_curve_point_prices_the_rest_at_the_zero_points() {
    // the first point lowers the price to 0.9 at once; the nine zero
    // points after it lower it to zero for what is left
    let c = curve(&[50_000], &[ONE_USD * 9 / 10]);
    assert_eq!(
        SymmetryMath::compute_value_of_sold_token(100_000, settings(6, 0, 0, 1), flat_price(ONE_USD), 1_000_000, 1_000_000, c),
        45_000_000_000
    );
}

#[test]
fn sale_with_curve_switched_off_keeps_the_oracle_price() {
    assert_eq!(
        SymmetryMath::compute_value_of_sold_token(100_000, settings(6, 0, 0, 0), flat_price(ONE_USD), 1_000_000, 1_000_000, two_step_curve(ONE_USD * 9 / 10)),
        100_000_000_000
    );
    let cheap = curve(&[50_000], &[1]);
    assert_eq!(
        SymmetryMath::compute_value_of_sold_token(100_000, settings(6, 0, 0, 0), flat_price(ONE_USD), 1_000_000, 1_000_000, cheap),
        100_000_000_000
    );
    // any value of the switch but 1 is off
    assert_eq!(
        SymmetryMath::compute_value_of_sold_token(100_000, settings(6, 0, 0, 2), flat_price(ONE_USD), 1_000_000, 1_000_000, cheap),
        100_000_000_000
    );
}

#[test]
fn sale_never_raises_the_price() {
    let dear = two_step_curve(ONE_USD * 2);
    assert_eq!(
        SymmetryMath::compute_value_of_sold_token(100_000, settings(6, 0, 0, 1), flat_price(ONE_USD), 1_000_000, 1_000_000, dear),
        100_000_000_000
    );
}

#[test]
fn sale_skips_the_curve_capacity_already_used() {
    // 30_000 above target: 20_000 left of the first step, then 50_000
    // and the remaining 30_000 at 0.9
    assert_eq!(
        SymmetryMath::compute_value_of_sold_token(100_000, settings(6, 0, 0, 1), flat_price(ONE_USD), 1_030_000, 1_000_000, two_step_curve(ONE_USD * 9 / 10)),
        92_000_000_000
    );
}

#[test]
fn sale_beyond_the_curve_ends_on_the_terminal_step() {
    assert_eq!(
        SymmetryMath::compute_value_of_sold_token(150_000, settings(6, 0, 0, 1), flat_price(ONE_USD), 1_000_000, 1_000_000, two_step_curve(ONE_USD * 9 / 10)),
        140_000_000_000
    );
}

#[test]
fn sale_whose_value_overflows_is_zero() {
    assert_eq!(
        SymmetryMath::compute_value_of_sold_token(u64::MAX, settings(0, 0, 0, 0), flat_price(ONE_USD), 0, 0, zero_curve()),
        0
    );
    // each slice fits, their sum does not
    let c = curve(&[1], &[u64::MAX; 10]);
    assert_eq!(
        SymmetryMath::compute_value_of_sold_token(2, settings(0, 0, 0, 1), flat_price(u64::MAX), 0, 0, c),
        0
    );
    assert_eq!(
        SymmetryMath::compute_value_of_sold_token(1, settings(0, 0, 0, 1), flat_price(u64::MAX), 0, 0, c),
        u64::MAX
    );
}

#[test]
fn sale_is_monotonic_in_the_amount() {
    let s = settings(6, 10, 100, 1);
    let c = two_step_curve(ONE_USD * 9 / 10);
    let mut last = 0;
    let mut amount = 0;
    while amount <= 400_000 {
        let v = SymmetryMath::compute_value_of_sold_token(amount, s, flat_price(ONE_USD), 950_000, 1_000_000, c);
        assert!(v >= last);
        last = v;
        amount += 997;
    }
}

#[test]
fn purchase_without_curve_or_fees_is_value_over_price() {
    assert_eq!(
        SymmetryMath::compute_amount_of_bought_token(100_000_000_000, settings(6, 0, 0, 0), flat_price(ONE_USD), 1_000_000, 1_000_000, zero_curve()),
        100_000
    );
}

#[test]
fn purchase_at_or_below_target_pays_the_after_target_fee() {
    assert_eq!(
        SymmetryMath::compute_amount_of_bought_token(100_000_000_000, settings(6, 0, 100, 0), flat_price(ONE_USD), 1_000_000, 1_000_000, zero_curve()),
        99_000
    );
}

#[test]
fn purchase_across_target_splits_the_fee() {
    // 50_000 above target at 10 bps, 50_000 below at 100 bps
    assert_eq!(
        SymmetryMath::compute_amount_of_bought_token(100_000_000_000, settings(6, 10, 100, 0), flat_price(ONE_USD), 1_050_000, 1_000_000, zero_curve()),
        99_450
    );
}

#[test]
fn purchase_far_above_target_pays_the_before_target_fee() {
    assert_eq!(
        SymmetryMath::compute_amount_of_bought_token(100_000_000_000, settings(6, 10, 100, 0), flat_price(ONE_USD), 2_000_000, 1_000_000, zero_curve()),
        99_900
    );
}

#[test]
fn purchase_walks_up_the_curve() {
    // 50_000 at 1.0, then 50_000 dollars' worth at 1.1
    assert_eq!(
        SymmetryMath::compute_amount_of_bought_token(100_000_000_000, settings(6, 0, 0, 1), flat_price(ONE_USD), 1_000_000, 1_000_000, two_step_curve(ONE_USD * 11 / 10)),
        95_454
    );
}

#[test]
fn purchase_with_curve_switched_off_keeps_the_oracle_price() {
    assert_eq!(
        SymmetryMath::compute_amount_of_bought_token(100_000_000_000, settings(6, 0, 0, 0), flat_price(ONE_USD), 1_000_000, 1_000_000, two_step_curve(ONE_USD * 11 / 10)),
        100_000
    );
}

#[test]
fn purchase_never_lowers_the_price() {
    assert_eq!(
        SymmetryMath::compute_amount_of_bought_token(100_000_000_000, settings(6, 0, 0, 1), flat_price(ONE_USD), 1_000_000, 1_000_000, two_step_curve(ONE_USD / 2)),
        100_000
    );
}

#[test]
fn purchase_skips_the_curve_capacity_already_used() {
    assert_eq!(
        SymmetryMath::compute_amount_of_bought_token(100_000_000_000, settings(6, 0, 0, 1), flat_price(ONE_USD), 970_000, 1_000_000, two_step_curve(ONE_USD * 11 / 10)),
        92_727
    );
}

#[test]
fn purchase_with_a_value_above_half_the_range_still_spends_it_all() {
    // twice the value does not fit in 64 bits; the terminal step is
    // sized by the capped double
    let value: u64 = (1 << 63) + 5;
    assert_eq!(
        SymmetryMath::compute_amount_of_bought_token(value, settings(6, 0, 0, 0), flat_price(ONE_USD * 1_000_000), 1_000_000_000, 1_000_000_000, zero_curve()),
        9_223_372
    );
}

#[test]
fn purchase_whose_terminal_step_overflows_buys_nothing() {
    assert_eq!(
        SymmetryMath::compute_amount_of_bought_token(10_000_000_000_000_000_000, settings(6, 0, 0, 0), flat_price(1), 10, 10, zero_curve()),
        0
    );
}

#[test]
fn purchase_is_monotonic_while_the_holding_is_not_above_target() {
    let s = settings(6, 10, 100, 1);
    let c = two_step_curve(ONE_USD * 11 / 10);
    let mut last = 0;
    let mut value: u64 = 0;
    while value <= 400_000_000_000 {
        let v = SymmetryMath::compute_amount_of_bought_token(value, s, flat_price(ONE_USD), 950_000, 1_000_000, c);
        assert!(v >= last);
        last = v;
        value += 997_000_003;
    }
}

#[test]
fn purchase_can_drop_by_a_unit_where_a_slice_crosses_the_target() {
    // a holding above target: one more unit of value moves a whole token
    // unit to the dearer side of the target
    let s = settings(1, 10, 100, 0);
    assert_eq!(
        SymmetryMath::compute_amount_of_bought_token(122_999, s, flat_price(3000), 1875, 1531, zero_curve()),
        409
    );
    assert_eq!(
        SymmetryMath::compute_amount_of_bought_token(123_000, s, flat_price(3000), 1875, 1531, zero_curve()),
        408
    );
}
