//! Monotonicity of the curve walkers: selling more brings at least as
//! much value, and more value buys at least as much.
//!
//! Both hold only where no quantity outgrows 64 bits, since a quantity
//! that does is reported as zero.

use vstd::prelude::*;
use crate::accounts::{OraclePrice, TokenPriceData, TokenSettings, NUM_OF_POINTS_IN_CURVE_DATA};
use crate::math::{
    double_capped, lemma_mul_div_at_most_exact, lemma_mul_div_range, lemma_pow10_range,
    lemma_mul_div_zero, mul_div_spec, pow10_spec, usd_to_amount_spec, BPS_DIVIDER, MAX_DECIMALS,
};
use crate::token_swap::{
    amount_of_bought, bought_amount_from, bought_slice_amount, bought_slice_output,
    bought_slice_value, bought_value_before_target, buy_step_amount, buy_step_price,
    lemma_bought_nothing_left, lemma_fees_bounded, lemma_sold_nothing_left,
    lemma_sold_slice_value_range, sell_step_amount, sell_step_price, sold_before_target,
    sold_slice_value, sold_value_from, step_offset, swap_fees, value_of_sold,
};

verus! {

/// What is left of a value after a fee of at most the whole grows with
/// the value.
pub proof fn lemma_net_of_fee_monotonic(v1: int, v2: int, fee_bps: int)
    requires
        0 <= v1 <= v2 <= u64::MAX,
        0 <= fee_bps <= BPS_DIVIDER,
    ensures
        v1 - mul_div_spec(v1, fee_bps, BPS_DIVIDER as int) <= v2 - mul_div_spec(
            v2,
            fee_bps,
            BPS_DIVIDER as int,
        ),
{
    assert(0 <= (v1 * fee_bps) / 10000 <= v1 && 0 <= (v2 * fee_bps) / 10000 <= v2 && (v2 * fee_bps)
        / 10000 <= (v1 * fee_bps) / 10000 + (v2 - v1)) by (nonlinear_arith)
        requires
            0 <= v1 <= v2,
            0 <= fee_bps <= 10000,
    ;
}

/// Where the larger product's quotient fits in 64 bits, `mul_div` is the
/// exact quotient and grows with its first factor.
pub proof fn lemma_mul_div_monotonic(x1: int, x2: int, p: int, c: int)
    requires
        0 <= x1 <= x2,
        0 <= p,
        0 < c,
        x2 * p < 0x1_0000_0000_0000_0000 * c,
    ensures
        mul_div_spec(x1, p, c) == (x1 * p) / c,
        mul_div_spec(x2, p, c) == (x2 * p) / c,
        mul_div_spec(x1, p, c) <= mul_div_spec(x2, p, c),
{
    assert(0 <= (x1 * p) / c <= (x2 * p) / c < 0x1_0000_0000_0000_0000) by (nonlinear_arith)
        requires
            0 <= x1 <= x2,
            0 <= p,
            0 < c,
            x2 * p < 0x1_0000_0000_0000_0000 * c,
    ;
}

/// A larger slice sold from the same holding at the same price is worth
/// at least as much.
pub proof fn lemma_sold_slice_monotonic(
    s1: int,
    s2: int,
    current_amount: int,
    target_amount: int,
    price: int,
    settings: TokenSettings,
)
    requires
        0 <= s1 <= s2,
        0 <= price,
        settings.decimals <= MAX_DECIMALS,
        s2 * price < 0x1_0000_0000_0000_0000 * pow10_spec(settings.decimals as int),
    ensures
        sold_slice_value(s1, current_amount, target_amount, price, settings) <= sold_slice_value(
            s2,
            current_amount,
            target_amount,
            price,
            settings,
        ),
{
    let c = pow10_spec(settings.decimals as int);
    lemma_pow10_range(settings.decimals as int);
    let b1 = sold_before_target(s1, current_amount, target_amount);
    let b2 = sold_before_target(s2, current_amount, target_amount);
    let a1 = s1 - b1;
    let a2 = s2 - b2;
    assert(0 <= b1 <= b2 <= s2 && 0 <= a1 <= a2 <= s2);
    assert(b2 * price <= s2 * price && a2 * price <= s2 * price) by (nonlinear_arith)
        requires
            0 <= b2 <= s2,
            0 <= a2 <= s2,
            0 <= price,
    ;
    lemma_mul_div_monotonic(b1, b2, price, c);
    lemma_mul_div_monotonic(a1, a2, price, c);
    let vb1 = mul_div_spec(b1, price, c);
    let vb2 = mul_div_spec(b2, price, c);
    let va1 = mul_div_spec(a1, price, c);
    let va2 = mul_div_spec(a2, price, c);
    lemma_mul_div_range(b1, price, c);
    lemma_mul_div_range(b2, price, c);
    lemma_mul_div_range(a1, price, c);
    lemma_mul_div_range(a2, price, c);
    lemma_net_of_fee_monotonic(vb1, vb2, settings.token_swap_fee_before_tw_bps as int);
    lemma_net_of_fee_monotonic(va1, va2, settings.token_swap_fee_after_tw_bps as int);
}

/// A walk never brings a negative value.
pub proof fn lemma_sold_value_nonnegative(
    step: int,
    current_amount: int,
    curve_offset: int,
    amount_left: int,
    current_price: int,
    settings: TokenSettings,
    target_amount: int,
    curve: TokenPriceData,
)
    ensures
        0 <= sold_value_from(
            step,
            current_amount,
            curve_offset,
            amount_left,
            current_price,
            settings,
            target_amount,
            curve,
        ),
    decreases NUM_OF_POINTS_IN_CURVE_DATA + 1 - step,
{
    if 0 <= step <= NUM_OF_POINTS_IN_CURVE_DATA {
        let price = sell_step_price(current_price, step, settings, curve);
        let step_amount = sell_step_amount(step, amount_left, curve);
        let offset = step_offset(step, curve_offset);
        if step_amount <= offset {
            lemma_sold_value_nonnegative(
                step + 1,
                current_amount,
                offset - step_amount,
                amount_left,
                price,
                settings,
                target_amount,
                curve,
            );
        } else {
            let slice = if step_amount - offset > amount_left {
                amount_left
            } else {
                step_amount - offset
            };
            lemma_sold_slice_value_range(slice, current_amount, target_amount, price, settings);
            lemma_sold_value_nonnegative(
                step + 1,
                current_amount + slice,
                0,
                amount_left - slice,
                price,
                settings,
                target_amount,
                curve,
            );
        }
    }
}

/// A slice is worth no more than its amount at the price, before
/// rounding: the value times the token's unit is at most amount times
/// price.
pub proof fn lemma_sold_slice_at_most_exact(
    slice: int,
    current_amount: int,
    target_amount: int,
    price: int,
    settings: TokenSettings,
)
    requires
        0 <= slice,
        0 <= price,
        settings.decimals <= MAX_DECIMALS,
    ensures
        sold_slice_value(slice, current_amount, target_amount, price, settings) * pow10_spec(
            settings.decimals as int,
        ) <= slice * price,
{
    let c = pow10_spec(settings.decimals as int);
    lemma_pow10_range(settings.decimals as int);
    let before = sold_before_target(slice, current_amount, target_amount);
    let after = slice - before;
    let vb = mul_div_spec(before, price, c);
    let va = mul_div_spec(after, price, c);
    lemma_mul_div_at_most_exact(before, price, c);
    lemma_mul_div_at_most_exact(after, price, c);
    lemma_mul_div_range(before, price, c);
    lemma_mul_div_range(after, price, c);
    lemma_fees_bounded(vb, va, settings);
    let value = sold_slice_value(slice, current_amount, target_amount, price, settings);
    assert(value <= vb + va);
    assert(value * c <= slice * price) by (nonlinear_arith)
        requires
            value <= vb + va,
            vb * c <= before * price,
            va * c <= after * price,
            before + after == slice,
            0 < c,
    ;
}

/// A walk brings no more than the remaining amount is worth at the
/// current price, before rounding.
pub proof fn lemma_sold_value_at_most_exact(
    step: int,
    current_amount: int,
    curve_offset: int,
    amount_left: int,
    current_price: int,
    settings: TokenSettings,
    target_amount: int,
    curve: TokenPriceData,
)
    requires
        0 <= amount_left,
        0 <= curve_offset,
        0 <= current_price,
        settings.decimals <= MAX_DECIMALS,
    ensures
        sold_value_from(
            step,
            current_amount,
            curve_offset,
            amount_left,
            current_price,
            settings,
            target_amount,
            curve,
        ) * pow10_spec(settings.decimals as int) <= amount_left * current_price,
    decreases NUM_OF_POINTS_IN_CURVE_DATA + 1 - step,
{
    let c = pow10_spec(settings.decimals as int);
    lemma_pow10_range(settings.decimals as int);
    assert(0 <= amount_left * current_price) by (nonlinear_arith)
        requires
            0 <= amount_left,
            0 <= current_price,
    ;
    if 0 <= step <= NUM_OF_POINTS_IN_CURVE_DATA {
        let price = sell_step_price(current_price, step, settings, curve);
        let step_amount = sell_step_amount(step, amount_left, curve);
        let offset = step_offset(step, curve_offset);
        if step_amount <= offset {
            lemma_sold_value_at_most_exact(
                step + 1,
                current_amount,
                offset - step_amount,
                amount_left,
                price,
                settings,
                target_amount,
                curve,
            );
            assert(amount_left * price <= amount_left * current_price) by (nonlinear_arith)
                requires
                    0 <= amount_left,
                    0 <= price <= current_price,
            ;
        } else {
            let slice = if step_amount - offset > amount_left {
                amount_left
            } else {
                step_amount - offset
            };
            lemma_sold_slice_at_most_exact(slice, current_amount, target_amount, price, settings);
            lemma_sold_value_at_most_exact(
                step + 1,
                current_amount + slice,
                0,
                amount_left - slice,
                price,
                settings,
                target_amount,
                curve,
            );
            let head = sold_slice_value(slice, current_amount, target_amount, price, settings);
            let rest = sold_value_from(
                step + 1,
                current_amount + slice,
                0,
                amount_left - slice,
                price,
                settings,
                target_amount,
                curve,
            );
            assert((head + rest) * c <= amount_left * current_price) by (nonlinear_arith)
                requires
                    head * c <= slice * price,
                    rest * c <= (amount_left - slice) * price,
                    0 <= slice <= amount_left,
                    0 <= price <= current_price,
            ;
        }
    }
}

/// From the same state, a walk with more left to sell brings at least
/// as much value.
pub proof fn lemma_sold_value_monotonic(
    step: int,
    current_amount: int,
    curve_offset: int,
    left1: int,
    left2: int,
    current_price: int,
    settings: TokenSettings,
    target_amount: int,
    curve: TokenPriceData,
)
    requires
        0 <= left1 <= left2,
        0 <= curve_offset,
        0 <= current_price,
        settings.decimals <= MAX_DECIMALS,
        left2 * current_price < 0x1_0000_0000_0000_0000 * pow10_spec(settings.decimals as int),
    ensures
        sold_value_from(
            step,
            current_amount,
            curve_offset,
            left1,
            current_price,
            settings,
            target_amount,
            curve,
        ) <= sold_value_from(
            step,
            current_amount,
            curve_offset,
            left2,
            current_price,
            settings,
            target_amount,
            curve,
        ),
    decreases NUM_OF_POINTS_IN_CURVE_DATA + 1 - step,
{
    let c = pow10_spec(settings.decimals as int);
    lemma_pow10_range(settings.decimals as int);
    if 0 <= step <= NUM_OF_POINTS_IN_CURVE_DATA {
        let price = sell_step_price(current_price, step, settings, curve);
        let offset = step_offset(step, curve_offset);
        let step_amount1 = sell_step_amount(step, left1, curve);
        let step_amount2 = sell_step_amount(step, left2, curve);
        assert(left2 * price <= left2 * current_price) by (nonlinear_arith)
            requires
                0 <= left2,
                0 <= price <= current_price,
        ;
        if step_amount2 <= offset {
            // Neither walk enters the step.
            lemma_sold_value_monotonic(
                step + 1,
                current_amount,
                offset - step_amount2,
                left1,
                left2,
                price,
                settings,
                target_amount,
                curve,
            );
            if step_amount1 != step_amount2 {
                lemma_sold_nothing_left(
                    step + 1,
                    current_amount,
                    offset - step_amount1,
                    price,
                    settings,
                    target_amount,
                    curve,
                );
                lemma_sold_nothing_left(
                    step + 1,
                    current_amount,
                    offset - step_amount2,
                    price,
                    settings,
                    target_amount,
                    curve,
                );
            }
        } else {
            let slice2 = if step_amount2 - offset > left2 {
                left2
            } else {
                step_amount2 - offset
            };
            assert(slice2 * price <= left2 * price) by (nonlinear_arith)
                requires
                    0 <= slice2 <= left2,
                    0 <= price,
            ;
            assert((left2 - slice2) * price <= left2 * price) by (nonlinear_arith)
                requires
                    0 <= slice2 <= left2,
                    0 <= price,
            ;
            lemma_sold_value_nonnegative(
                step + 1,
                current_amount + slice2,
                0,
                left2 - slice2,
                price,
                settings,
                target_amount,
                curve,
            );
            if step_amount1 <= offset {
                // Only the first walk skips the step: it is the terminal
                // one, and the first walk has nothing left.
                lemma_sold_nothing_left(
                    step + 1,
                    current_amount,
                    offset - step_amount1,
                    price,
                    settings,
                    target_amount,
                    curve,
                );
                lemma_sold_slice_value_range(
                    slice2,
                    current_amount,
                    target_amount,
                    price,
                    settings,
                );
            } else {
                let slice1 = if step_amount1 - offset > left1 {
                    left1
                } else {
                    step_amount1 - offset
                };
                lemma_sold_slice_monotonic(
                    slice1,
                    slice2,
                    current_amount,
                    target_amount,
                    price,
                    settings,
                );
                if slice1 == slice2 {
                    lemma_sold_value_monotonic(
                        step + 1,
                        current_amount + slice1,
                        0,
                        left1 - slice1,
                        left2 - slice2,
                        price,
                        settings,
                        target_amount,
                        curve,
                    );
                } else {
                    lemma_sold_nothing_left(
                        step + 1,
                        current_amount + slice1,
                        0,
                        price,
                        settings,
                        target_amount,
                        curve,
                    );
                }
            }
        }
    }
}

/// For a fixed state of the fund, the value of a sale does not decrease
/// when the amount sold grows, as long as the larger amount's worth at
/// the oracle's sell price fits in 64 bits.
pub proof fn lemma_value_of_sold_monotonic(
    amount1: int,
    amount2: int,
    settings: TokenSettings,
    price: OraclePrice,
    start_amount: int,
    target_amount: int,
    curve: TokenPriceData,
)
    requires
        0 <= amount1 <= amount2,
        settings.decimals <= MAX_DECIMALS,
        (amount2 * price.sell_price) / pow10_spec(settings.decimals as int) <= u64::MAX,
    ensures
        value_of_sold(amount1, settings, price, start_amount, target_amount, curve)
            <= value_of_sold(amount2, settings, price, start_amount, target_amount, curve),
{
    let c = pow10_spec(settings.decimals as int);
    lemma_pow10_range(settings.decimals as int);
    let p = price.sell_price as int;
    let offset = if start_amount > target_amount {
        start_amount - target_amount
    } else {
        0
    };
    assert(amount2 * p < 0x1_0000_0000_0000_0000 * c) by (nonlinear_arith)
        requires
            0 < c,
            (amount2 * p) / c <= 0xFFFF_FFFF_FFFF_FFFF,
    ;
    lemma_sold_value_monotonic(
        0,
        start_amount,
        offset,
        amount1,
        amount2,
        p,
        settings,
        target_amount,
        curve,
    );
    lemma_sold_value_nonnegative(0, start_amount, offset, amount1, p, settings, target_amount, curve);
    lemma_sold_value_at_most_exact(
        0,
        start_amount,
        offset,
        amount2,
        p,
        settings,
        target_amount,
        curve,
    );
    let total2 = sold_value_from(0, start_amount, offset, amount2, p, settings, target_amount, curve);
    assert(total2 < 0x1_0000_0000_0000_0000) by (nonlinear_arith)
        requires
            total2 * c <= amount2 * p,
            amount2 * p < 0x1_0000_0000_0000_0000 * c,
            0 < c,
    ;
}

/// A walk never hands out a negative amount.
pub proof fn lemma_bought_amount_nonnegative(
    step: int,
    current_amount: int,
    curve_offset: int,
    value_left: int,
    current_price: int,
    settings: TokenSettings,
    target_amount: int,
    curve: TokenPriceData,
)
    ensures
        0 <= bought_amount_from(
            step,
            current_amount,
            curve_offset,
            value_left,
            current_price,
            settings,
            target_amount,
            curve,
        ),
    decreases NUM_OF_POINTS_IN_CURVE_DATA + 1 - step,
{
    if 0 <= step <= NUM_OF_POINTS_IN_CURVE_DATA {
        let price = buy_step_price(current_price, step, settings, curve);
        let step_amount = buy_step_amount(step, value_left, price, settings, curve);
        let offset = step_offset(step, curve_offset);
        if step_amount <= offset {
            lemma_bought_amount_nonnegative(
                step + 1,
                current_amount,
                offset - step_amount,
                value_left,
                price,
                settings,
                target_amount,
                curve,
            );
        } else {
            let capacity = step_amount - offset;
            let slice_value = bought_slice_value(capacity, value_left, price, settings);
            let slice_amount = bought_slice_amount(capacity, value_left, price, settings);
            let bought = bought_slice_output(
                slice_value,
                slice_amount,
                current_amount,
                target_amount,
                price,
                settings,
            );
            lemma_bought_amount_nonnegative(
                step + 1,
                if bought > current_amount {
                    0
                } else {
                    current_amount - bought
                },
                0,
                value_left - slice_value,
                price,
                settings,
                target_amount,
                curve,
            );
        }
    }
}

/// A slice spends between nothing and all that is left.
pub proof fn lemma_bought_slice_value_range(
    capacity: int,
    value_left: int,
    price: int,
    settings: TokenSettings,
)
    requires
        0 <= value_left,
    ensures
        0 <= bought_slice_value(capacity, value_left, price, settings) <= value_left,
{
    lemma_mul_div_range(capacity, price, pow10_spec(settings.decimals as int));
}

/// A slice hands out no more than its value buys at the price, before
/// rounding: the amount times the price is at most the value times the
/// token's unit.
pub proof fn lemma_bought_slice_at_most_exact(
    slice_value: int,
    slice_amount: int,
    current_amount: int,
    target_amount: int,
    price: int,
    settings: TokenSettings,
)
    requires
        0 <= slice_value,
        0 <= price,
    ensures
        0 <= bought_slice_output(
            slice_value,
            slice_amount,
            current_amount,
            target_amount,
            price,
            settings,
        ),
        bought_slice_output(
            slice_value,
            slice_amount,
            current_amount,
            target_amount,
            price,
            settings,
        ) * price <= slice_value * pow10_spec(settings.decimals as int),
{
    let c = pow10_spec(settings.decimals as int);
    lemma_pow10_range(settings.decimals as int);
    let before = bought_value_before_target(
        slice_value,
        slice_amount,
        current_amount,
        target_amount,
        price,
        settings,
    );
    lemma_mul_div_range(target_amount + slice_amount - current_amount, price, c);
    assert(0 <= before <= slice_value);
    lemma_fees_bounded(before, slice_value - before, settings);
    let net = slice_value - swap_fees(before, slice_value - before, settings);
    assert(0 <= net <= slice_value);
    lemma_mul_div_at_most_exact(net, c, price);
    lemma_mul_div_range(net, c, price);
    let out = mul_div_spec(net, c, price);
    assert(out * price <= slice_value * c) by (nonlinear_arith)
        requires
            out * price <= net * c,
            0 <= net <= slice_value,
            0 <= c,
    ;
}

/// A walk hands out no more than the remaining value buys at the
/// current price, before rounding.
pub proof fn lemma_bought_amount_at_most_exact(
    step: int,
    current_amount: int,
    curve_offset: int,
    value_left: int,
    current_price: int,
    settings: TokenSettings,
    target_amount: int,
    curve: TokenPriceData,
)
    requires
        0 <= value_left,
        0 <= current_price,
    ensures
        bought_amount_from(
            step,
            current_amount,
            curve_offset,
            value_left,
            current_price,
            settings,
            target_amount,
            curve,
        ) * current_price <= value_left * pow10_spec(settings.decimals as int),
    decreases NUM_OF_POINTS_IN_CURVE_DATA + 1 - step,
{
    let c = pow10_spec(settings.decimals as int);
    lemma_pow10_range(settings.decimals as int);
    assert(0 <= value_left * c) by (nonlinear_arith)
        requires
            0 <= value_left,
            0 <= c,
    ;
    if 0 <= step <= NUM_OF_POINTS_IN_CURVE_DATA {
        let price = buy_step_price(current_price, step, settings, curve);
        let step_amount = buy_step_amount(step, value_left, price, settings, curve);
        let offset = step_offset(step, curve_offset);
        if step_amount <= offset {
            lemma_bought_amount_at_most_exact(
                step + 1,
                current_amount,
                offset - step_amount,
                value_left,
                price,
                settings,
                target_amount,
                curve,
            );
            lemma_bought_amount_nonnegative(
                step + 1,
                current_amount,
                offset - step_amount,
                value_left,
                price,
                settings,
                target_amount,
                curve,
            );
            let rest = bought_amount_from(
                step + 1,
                current_amount,
                offset - step_amount,
                value_left,
                price,
                settings,
                target_amount,
                curve,
            );
            assert(rest * current_price <= rest * price) by (nonlinear_arith)
                requires
                    0 <= rest,
                    0 <= current_price <= price,
            ;
        } else {
            let capacity = step_amount - offset;
            let slice_value = bought_slice_value(capacity, value_left, price, settings);
            let slice_amount = bought_slice_amount(capacity, value_left, price, settings);
            lemma_bought_slice_value_range(capacity, value_left, price, settings);
            let bought = bought_slice_output(
                slice_value,
                slice_amount,
                current_amount,
                target_amount,
                price,
                settings,
            );
            lemma_bought_slice_at_most_exact(
                slice_value,
                slice_amount,
                current_amount,
                target_amount,
                price,
                settings,
            );
            let next_amount = if bought > current_amount {
                0
            } else {
                current_amount - bought
            };
            lemma_bought_amount_at_most_exact(
                step + 1,
                next_amount,
                0,
                value_left - slice_value,
                price,
                settings,
                target_amount,
                curve,
            );
            lemma_bought_amount_nonnegative(
                step + 1,
                next_amount,
                0,
                value_left - slice_value,
                price,
                settings,
                target_amount,
                curve,
            );
            let rest = bought_amount_from(
                step + 1,
                next_amount,
                0,
                value_left - slice_value,
                price,
                settings,
                target_amount,
                curve,
            );
            assert((bought + rest) * current_price <= value_left * c) by (nonlinear_arith)
                requires
                    bought * price <= slice_value * c,
                    rest * price <= (value_left - slice_value) * c,
                    0 <= bought,
                    0 <= rest,
                    0 <= current_price <= price,
            ;
        }
    }
}

/// What a slice hands out while the holding is not above its target:
/// the whole value pays the fee of the far side of the target.
pub open spec fn bought_output_below_target(slice_value: int, price: int, settings: TokenSettings) -> int {
    usd_to_amount_spec(
        slice_value - mul_div_spec(
            slice_value,
            settings.token_swap_fee_after_tw_bps as int,
            BPS_DIVIDER as int,
        ),
        settings.decimals as int,
        price,
    )
}

/// While the holding is not above its target, a slice hands out
/// `bought_output_below_target`.
pub proof fn lemma_bought_output_below_target(
    slice_value: int,
    slice_amount: int,
    current_amount: int,
    target_amount: int,
    price: int,
    settings: TokenSettings,
)
    requires
        current_amount <= target_amount,
    ensures
        bought_slice_output(
            slice_value,
            slice_amount,
            current_amount,
            target_amount,
            price,
            settings,
        ) == bought_output_below_target(slice_value, price, settings),
{
    lemma_mul_div_zero(0, settings.token_swap_fee_before_tw_bps as int, BPS_DIVIDER as int);
}

/// While the holding is not above its target, a larger value spent on
/// a slice hands out at least as much.
pub proof fn lemma_bought_output_monotonic(
    v1: int,
    v2: int,
    price: int,
    settings: TokenSettings,
)
    requires
        0 <= v1 <= v2 <= u64::MAX,
        0 < price,
        v2 * pow10_spec(settings.decimals as int) < 0x1_0000_0000_0000_0000 * price,
    ensures
        bought_output_below_target(v1, price, settings) <= bought_output_below_target(
            v2,
            price,
            settings,
        ),
{
    let c = pow10_spec(settings.decimals as int);
    lemma_pow10_range(settings.decimals as int);
    let fee_bps = settings.token_swap_fee_after_tw_bps as int;
    lemma_net_of_fee_monotonic(v1, v2, fee_bps);
    lemma_fees_bounded(0, v1, settings);
    lemma_fees_bounded(0, v2, settings);
    let n1 = v1 - mul_div_spec(v1, fee_bps, BPS_DIVIDER as int);
    let n2 = v2 - mul_div_spec(v2, fee_bps, BPS_DIVIDER as int);
    assert(n2 * c <= v2 * c) by (nonlinear_arith)
        requires
            0 <= n2 <= v2,
            0 <= c,
    ;
    lemma_mul_div_monotonic(n1, n2, c, price);
}

/// From the same state with the holding not above its target, a walk
/// with more value left hands out at least as much.
pub proof fn lemma_bought_amount_monotonic(
    step: int,
    current_amount: int,
    curve_offset: int,
    left1: int,
    left2: int,
    current_price: int,
    settings: TokenSettings,
    target_amount: int,
    curve: TokenPriceData,
)
    requires
        0 <= left1 <= left2,
        2 * left2 <= u64::MAX,
        0 <= current_amount <= target_amount,
        0 <= curve_offset,
        0 < current_price,
        settings.decimals <= MAX_DECIMALS,
        2 * left2 * pow10_spec(settings.decimals as int) < 0x1_0000_0000_0000_0000 * current_price,
    ensures
        bought_amount_from(
            step,
            current_amount,
            curve_offset,
            left1,
            current_price,
            settings,
            target_amount,
            curve,
        ) <= bought_amount_from(
            step,
            current_amount,
            curve_offset,
            left2,
            current_price,
            settings,
            target_amount,
            curve,
        ),
    decreases NUM_OF_POINTS_IN_CURVE_DATA + 1 - step,
{
    let c = pow10_spec(settings.decimals as int);
    lemma_pow10_range(settings.decimals as int);
    let d = settings.decimals as int;
    if 0 <= step <= NUM_OF_POINTS_IN_CURVE_DATA {
        let price = buy_step_price(current_price, step, settings, curve);
        let offset = step_offset(step, curve_offset);
        assert(0x1_0000_0000_0000_0000 * current_price <= 0x1_0000_0000_0000_0000 * price);
        assert(left2 * c <= 2 * left2 * c && left1 * c <= left2 * c && 2 * left1 * c <= 2 * left2
            * c) by (nonlinear_arith)
            requires
                0 <= left1 <= left2,
                0 < c,
        ;
        let step_amount1 = buy_step_amount(step, left1, price, settings, curve);
        let step_amount2 = buy_step_amount(step, left2, price, settings, curve);
        if step == NUM_OF_POINTS_IN_CURVE_DATA {
            assert(double_capped(left1) == 2 * left1 && double_capped(left2) == 2 * left2);
            lemma_mul_div_monotonic(2 * left1, 2 * left2, c, price);
            lemma_mul_div_at_most_exact(2 * left1, c, price);
            lemma_mul_div_at_most_exact(2 * left2, c, price);
        }
        assert(0 <= step_amount1 <= step_amount2);
        lemma_bought_amount_nonnegative(
            step + 1,
            current_amount,
            offset - step_amount1,
            left1,
            price,
            settings,
            target_amount,
            curve,
        );
        if step_amount2 <= offset {
            // Neither walk enters the step.
            if step_amount1 == step_amount2 {
                lemma_bought_amount_monotonic(
                    step + 1,
                    current_amount,
                    offset - step_amount2,
                    left1,
                    left2,
                    price,
                    settings,
                    target_amount,
                    curve,
                );
            }
        } else {
            let capacity2 = step_amount2 - offset;
            let value2 = bought_slice_value(capacity2, left2, price, settings);
            let amount2 = bought_slice_amount(capacity2, left2, price, settings);
            let bought2 = bought_slice_output(
                value2,
                amount2,
                current_amount,
                target_amount,
                price,
                settings,
            );
            let next2 = if bought2 > current_amount {
                0
            } else {
                current_amount - bought2
            };
            lemma_bought_slice_value_range(capacity2, left2, price, settings);
            lemma_bought_output_below_target(
                value2,
                amount2,
                current_amount,
                target_amount,
                price,
                settings,
            );
            lemma_bought_slice_at_most_exact(
                value2,
                amount2,
                current_amount,
                target_amount,
                price,
                settings,
            );
            lemma_bought_amount_nonnegative(
                step + 1,
                next2,
                0,
                left2 - value2,
                price,
                settings,
                target_amount,
                curve,
            );
            if step_amount1 <= offset {
                // Only the first walk skips the step, which is the
                // terminal one: it hands out nothing more.
            } else {
                let capacity1 = step_amount1 - offset;
                let value1 = bought_slice_value(capacity1, left1, price, settings);
                let amount1 = bought_slice_amount(capacity1, left1, price, settings);
                lemma_bought_slice_value_range(capacity1, left1, price, settings);
                lemma_bought_output_below_target(
                    value1,
                    amount1,
                    current_amount,
                    target_amount,
                    price,
                    settings,
                );
                if step == NUM_OF_POINTS_IN_CURVE_DATA {
                    assert(capacity1 * price <= 2 * left1 * c && capacity2 * price <= 2 * left2
                        * c);
                    assert(capacity2 * price < 0x1_0000_0000_0000_0000 * c) by (nonlinear_arith)
                        requires
                            capacity2 * price <= 2 * left2 * c,
                            2 * left2 <= 0xFFFF_FFFF_FFFF_FFFF,
                            0 < c,
                    ;
                    lemma_mul_div_monotonic(capacity1, capacity2, price, c);
                }
                assert(value1 <= value2);
                assert(value2 * c <= left2 * c) by (nonlinear_arith)
                    requires
                        0 <= value2 <= left2,
                        0 < c,
                ;
                lemma_bought_output_monotonic(value1, value2, price, settings);
                if value1 == value2 {
                    assert(2 * (left2 - value2) * c <= 2 * left2 * c) by (nonlinear_arith)
                        requires
                            0 <= value2 <= left2,
                            0 < c,
                    ;
                    lemma_bought_amount_monotonic(
                        step + 1,
                        next2,
                        0,
                        left1 - value1,
                        left2 - value2,
                        price,
                        settings,
                        target_amount,
                        curve,
                    );
                } else {
                    let bought1 = bought_slice_output(
                        value1,
                        amount1,
                        current_amount,
                        target_amount,
                        price,
                        settings,
                    );
                    let next1 = if bought1 > current_amount {
                        0
                    } else {
                        current_amount - bought1
                    };
                    if step < NUM_OF_POINTS_IN_CURVE_DATA {
                        lemma_bought_nothing_left(
                            step + 1,
                            next1,
                            0,
                            price,
                            settings,
                            target_amount,
                            curve,
                        );
                    }
                    assert(bought_amount_from(
                        step + 1,
                        next1,
                        0,
                        left1 - value1,
                        price,
                        settings,
                        target_amount,
                        curve,
                    ) == 0);
                }
            }
        }
    }
}

/// For a fixed state of the fund in which the holding is not above its
/// target, the amount a purchase hands out does not decrease when the
/// value spent grows, as long as twice the larger value, and what it
/// buys at the oracle's buy price, fit in 64 bits.
pub proof fn lemma_amount_of_bought_monotonic(
    value1: int,
    value2: int,
    settings: TokenSettings,
    price: OraclePrice,
    start_amount: int,
    target_amount: int,
    curve: TokenPriceData,
)
    requires
        0 <= value1 <= value2,
        0 <= start_amount <= target_amount,
        settings.decimals <= MAX_DECIMALS,
        price.buy_price > 0,
        2 * value2 <= u64::MAX,
        (2 * value2 * pow10_spec(settings.decimals as int)) / (price.buy_price as int) <= u64::MAX,
    ensures
        amount_of_bought(value1, settings, price, start_amount, target_amount, curve)
            <= amount_of_bought(value2, settings, price, start_amount, target_amount, curve),
{
    let c = pow10_spec(settings.decimals as int);
    lemma_pow10_range(settings.decimals as int);
    let p = price.buy_price as int;
    let offset = target_amount - start_amount;
    assert(2 * value2 * c < 0x1_0000_0000_0000_0000 * p) by (nonlinear_arith)
        requires
            0 < p,
            (2 * value2 * c) / p <= 0xFFFF_FFFF_FFFF_FFFF,
    ;
    lemma_bought_amount_monotonic(
        0,
        start_amount,
        offset,
        value1,
        value2,
        p,
        settings,
        target_amount,
        curve,
    );
    lemma_bought_amount_nonnegative(
        0,
        start_amount,
        offset,
        value1,
        p,
        settings,
        target_amount,
        curve,
    );
    lemma_bought_amount_at_most_exact(
        0,
        start_amount,
        offset,
        value2,
        p,
        settings,
        target_amount,
        curve,
    );
    let total2 = bought_amount_from(
        0,
        start_amount,
        offset,
        value2,
        p,
        settings,
        target_amount,
        curve,
    );
    assert(total2 < 0x1_0000_0000_0000_0000) by (nonlinear_arith)
        requires
            total2 * p <= value2 * c,
            2 * value2 * c < 0x1_0000_0000_0000_0000 * p,
            0 <= value2,
            0 < c,
            0 < p,
    ;
}

} // verus!
