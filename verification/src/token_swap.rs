//! Swap pricing: unit conversion and the two curve walkers.
//!
//! A walker visits the ten steps of one side of a token's curve and then
//! a terminal step that takes whatever input is left. Each step has a
//! capacity and may override the price. The part of the curve that the
//! holding's distance from its target has already used up is skipped.
//! What a step takes is split where the holding crosses its target, and
//! each part pays its own fee.

use vstd::prelude::*;
use crate::accounts::{
    OraclePrice, TokenPriceData, TokenSettings, NUM_OF_POINTS_IN_CURVE_DATA, USE_CURVE_DATA,
};
use crate::math::{
    amount_to_usd_spec, double_capped, fit_u64, lemma_mul_div_le, lemma_mul_div_range,
    lemma_mul_div_zero, mul_div_spec, usd_to_amount_spec, BPS_DIVIDER,
};

verus! {

/// Fees on a slice whose value is split at the target weight.
pub open spec fn swap_fees(value_before_tw: int, value_after_tw: int, settings: TokenSettings) -> int {
    mul_div_spec(value_before_tw, settings.token_swap_fee_before_tw_bps as int, BPS_DIVIDER as int)
        + mul_div_spec(
        value_after_tw,
        settings.token_swap_fee_after_tw_bps as int,
        BPS_DIVIDER as int,
    )
}

/// Price in force at a sell step that was entered at `price`. Only a
/// curve that is switched on changes it, and only downwards.
pub open spec fn sell_step_price(
    price: int,
    step: int,
    settings: TokenSettings,
    curve: TokenPriceData,
) -> int {
    if 0 <= step < NUM_OF_POINTS_IN_CURVE_DATA && settings.use_curve_data == USE_CURVE_DATA
        && curve.price[step] < price {
        curve.price[step] as int
    } else {
        price
    }
}

/// Part of a sold slice that is taken while the holding is still below
/// its target.
pub open spec fn sold_before_target(slice: int, current_amount: int, target_amount: int) -> int {
    if current_amount >= target_amount {
        0
    } else if current_amount + slice >= target_amount {
        target_amount - current_amount
    } else {
        slice
    }
}

/// Dollar value, after fees, of a slice sold at `price` when the fund
/// already holds `current_amount`.
pub open spec fn sold_slice_value(
    slice: int,
    current_amount: int,
    target_amount: int,
    price: int,
    settings: TokenSettings,
) -> int {
    let before = sold_before_target(slice, current_amount, target_amount);
    let value_before = amount_to_usd_spec(before, settings.decimals as int, price);
    let value_after = amount_to_usd_spec(slice - before, settings.decimals as int, price);
    value_before + value_after - swap_fees(value_before, value_after, settings)
}

/// Capacity of a sell step: the curve's for the first ten steps, all
/// that is left for the terminal one.
pub open spec fn sell_step_amount(step: int, amount_left: int, curve: TokenPriceData) -> int {
    if 0 <= step < NUM_OF_POINTS_IN_CURVE_DATA {
        curve.amount[step] as int
    } else {
        amount_left
    }
}

/// Curve capacity still to be skipped on entry to a step. The terminal
/// step skips nothing.
pub open spec fn step_offset(step: int, curve_offset: int) -> int {
    if step == NUM_OF_POINTS_IN_CURVE_DATA {
        0
    } else {
        curve_offset
    }
}

/// Dollar value obtained from step `step` onwards, for a walk that has
/// reached the given holding, offset, remaining amount and price.
pub open spec fn sold_value_from(
    step: int,
    current_amount: int,
    curve_offset: int,
    amount_left: int,
    current_price: int,
    settings: TokenSettings,
    target_amount: int,
    curve: TokenPriceData,
) -> int
    decreases NUM_OF_POINTS_IN_CURVE_DATA + 1 - step,
{
    if step < 0 || step > NUM_OF_POINTS_IN_CURVE_DATA {
        0
    } else {
        let price = sell_step_price(current_price, step, settings, curve);
        let step_amount = sell_step_amount(step, amount_left, curve);
        let offset = step_offset(step, curve_offset);
        if step_amount <= offset {
            sold_value_from(
                step + 1,
                current_amount,
                offset - step_amount,
                amount_left,
                price,
                settings,
                target_amount,
                curve,
            )
        } else {
            let slice = if step_amount - offset > amount_left {
                amount_left
            } else {
                step_amount - offset
            };
            sold_slice_value(slice, current_amount, target_amount, price, settings)
                + sold_value_from(
                step + 1,
                current_amount + slice,
                0,
                amount_left - slice,
                price,
                settings,
                target_amount,
                curve,
            )
        }
    }
}

/// Dollar value that the fund pays for `amount` units of a token of which
/// it holds `start_amount` and aims at `target_amount`.
pub open spec fn value_of_sold(
    amount: int,
    settings: TokenSettings,
    price: OraclePrice,
    start_amount: int,
    target_amount: int,
    curve: TokenPriceData,
) -> int {
    fit_u64(
        sold_value_from(
            0,
            start_amount,
            if start_amount > target_amount {
                start_amount - target_amount
            } else {
                0
            },
            amount,
            price.sell_price as int,
            settings,
            target_amount,
            curve,
        ),
    )
}

/// A slice is worth at least nothing and less than twice `u64::MAX`.
pub proof fn lemma_sold_slice_value_range(
    slice: int,
    current_amount: int,
    target_amount: int,
    price: int,
    settings: TokenSettings,
)
    ensures
        0 <= sold_slice_value(slice, current_amount, target_amount, price, settings) <= 2
            * u64::MAX,
{
    let before = sold_before_target(slice, current_amount, target_amount);
    let d = settings.decimals as int;
    let value_before = amount_to_usd_spec(before, d, price);
    let value_after = amount_to_usd_spec(slice - before, d, price);
    lemma_mul_div_range(before, price, crate::math::pow10_spec(d));
    lemma_mul_div_range(slice - before, price, crate::math::pow10_spec(d));
    lemma_fees_bounded(value_before, value_after, settings);
}

/// Each part of a slice pays at most its own value in fees.
pub proof fn lemma_fees_bounded(value_before_tw: int, value_after_tw: int, settings: TokenSettings)
    requires
        0 <= value_before_tw,
        0 <= value_after_tw,
    ensures
        0 <= mul_div_spec(
            value_before_tw,
            settings.token_swap_fee_before_tw_bps as int,
            BPS_DIVIDER as int,
        ) <= value_before_tw,
        0 <= mul_div_spec(
            value_after_tw,
            settings.token_swap_fee_after_tw_bps as int,
            BPS_DIVIDER as int,
        ) <= value_after_tw,
        0 <= swap_fees(value_before_tw, value_after_tw, settings) <= value_before_tw
            + value_after_tw,
{
    lemma_mul_div_le(
        value_before_tw,
        settings.token_swap_fee_before_tw_bps as int,
        BPS_DIVIDER as int,
    );
    lemma_mul_div_le(
        value_after_tw,
        settings.token_swap_fee_after_tw_bps as int,
        BPS_DIVIDER as int,
    );
}

/// Once nothing is left to sell, the remaining steps add no value.
pub proof fn lemma_sold_nothing_left(
    step: int,
    current_amount: int,
    curve_offset: int,
    current_price: int,
    settings: TokenSettings,
    target_amount: int,
    curve: TokenPriceData,
)
    requires
        0 <= curve_offset,
    ensures
        sold_value_from(
            step,
            current_amount,
            curve_offset,
            0,
            current_price,
            settings,
            target_amount,
            curve,
        ) == 0,
    decreases NUM_OF_POINTS_IN_CURVE_DATA + 1 - step,
{
    if 0 <= step <= NUM_OF_POINTS_IN_CURVE_DATA {
        let price = sell_step_price(current_price, step, settings, curve);
        let step_amount = sell_step_amount(step, 0, curve);
        let offset = step_offset(step, curve_offset);
        if step_amount <= offset {
            lemma_sold_nothing_left(
                step + 1,
                current_amount,
                offset - step_amount,
                price,
                settings,
                target_amount,
                curve,
            );
        } else {
            lemma_mul_div_zero(0, price, crate::math::pow10_spec(settings.decimals as int));
            lemma_mul_div_zero(
                0,
                settings.token_swap_fee_before_tw_bps as int,
                BPS_DIVIDER as int,
            );
            lemma_mul_div_zero(0, settings.token_swap_fee_after_tw_bps as int, BPS_DIVIDER as int);
            assert(sold_slice_value(0, current_amount, target_amount, price, settings) == 0);
            lemma_sold_nothing_left(
                step + 1,
                current_amount,
                0,
                price,
                settings,
                target_amount,
                curve,
            );
        }
    }
}

/// Price in force at a buy step that was entered at `price`. Only a
/// curve that is switched on changes it, and only upwards.
pub open spec fn buy_step_price(
    price: int,
    step: int,
    settings: TokenSettings,
    curve: TokenPriceData,
) -> int {
    if 0 <= step < NUM_OF_POINTS_IN_CURVE_DATA && settings.use_curve_data == USE_CURVE_DATA
        && curve.price[step] > price {
        curve.price[step] as int
    } else {
        price
    }
}

/// Capacity of a buy step: the curve's for the first ten steps; for the
/// terminal one, what twice the remaining value buys at `price`.
pub open spec fn buy_step_amount(
    step: int,
    value_left: int,
    price: int,
    settings: TokenSettings,
    curve: TokenPriceData,
) -> int {
    if 0 <= step < NUM_OF_POINTS_IN_CURVE_DATA {
        curve.amount[step] as int
    } else {
        usd_to_amount_spec(double_capped(value_left), settings.decimals as int, price)
    }
}

/// Dollar value spent on a step with `capacity` units on offer: the
/// capacity's worth, or all that is left if that is less.
pub open spec fn bought_slice_value(
    capacity: int,
    value_left: int,
    price: int,
    settings: TokenSettings,
) -> int {
    let full = amount_to_usd_spec(capacity, settings.decimals as int, price);
    if full > value_left {
        value_left
    } else {
        full
    }
}

/// Units that the value spent on a step stands for, before fees.
pub open spec fn bought_slice_amount(
    capacity: int,
    value_left: int,
    price: int,
    settings: TokenSettings,
) -> int {
    let full = amount_to_usd_spec(capacity, settings.decimals as int, price);
    if full > value_left {
        usd_to_amount_spec(value_left, settings.decimals as int, price)
    } else {
        capacity
    }
}

/// Part of a slice's value that is spent while the holding is still
/// above its target.
pub open spec fn bought_value_before_target(
    slice_value: int,
    slice_amount: int,
    current_amount: int,
    target_amount: int,
    price: int,
    settings: TokenSettings,
) -> int {
    if current_amount <= target_amount {
        0
    } else if current_amount <= target_amount + slice_amount {
        let below = amount_to_usd_spec(
            target_amount + slice_amount - current_amount,
            settings.decimals as int,
            price,
        );
        if below > slice_value {
            0
        } else {
            slice_value - below
        }
    } else {
        slice_value
    }
}

/// Units handed out for a slice, after fees.
pub open spec fn bought_slice_output(
    slice_value: int,
    slice_amount: int,
    current_amount: int,
    target_amount: int,
    price: int,
    settings: TokenSettings,
) -> int {
    let before = bought_value_before_target(
        slice_value,
        slice_amount,
        current_amount,
        target_amount,
        price,
        settings,
    );
    usd_to_amount_spec(
        slice_value - swap_fees(before, slice_value - before, settings),
        settings.decimals as int,
        price,
    )
}

/// Units bought from step `step` onwards, for a walk that has reached
/// the given holding, offset, remaining value and price.
pub open spec fn bought_amount_from(
    step: int,
    current_amount: int,
    curve_offset: int,
    value_left: int,
    current_price: int,
    settings: TokenSettings,
    target_amount: int,
    curve: TokenPriceData,
) -> int
    decreases NUM_OF_POINTS_IN_CURVE_DATA + 1 - step,
{
    if step < 0 || step > NUM_OF_POINTS_IN_CURVE_DATA {
        0
    } else {
        let price = buy_step_price(current_price, step, settings, curve);
        let step_amount = buy_step_amount(step, value_left, price, settings, curve);
        let offset = step_offset(step, curve_offset);
        if step_amount <= offset {
            bought_amount_from(
                step + 1,
                current_amount,
                offset - step_amount,
                value_left,
                price,
                settings,
                target_amount,
                curve,
            )
        } else {
            let capacity = step_amount - offset;
            let slice_value = bought_slice_value(capacity, value_left, price, settings);
            let slice_amount = bought_slice_amount(capacity, value_left, price, settings);
            let bought = bought_slice_output(
                slice_value,
                slice_amount,
                current_amount,
                target_amount,
                price,
                settings,
            );
            bought + bought_amount_from(
                step + 1,
                if bought > current_amount {
                    0
                } else {
                    current_amount - bought
                },
                0,
                value_left - slice_value,
                price,
                settings,
                target_amount,
                curve,
            )
        }
    }
}

/// Units of a token that `value` dollars buy from a fund that holds
/// `start_amount` of it and aims at `target_amount`.
pub open spec fn amount_of_bought(
    value: int,
    settings: TokenSettings,
    price: OraclePrice,
    start_amount: int,
    target_amount: int,
    curve: TokenPriceData,
) -> int {
    fit_u64(
        bought_amount_from(
            0,
            start_amount,
            if start_amount < target_amount {
                target_amount - start_amount
            } else {
                0
            },
            value,
            price.buy_price as int,
            settings,
            target_amount,
            curve,
        ),
    )
}

/// Once no value is left to spend, the remaining steps hand out nothing.
pub proof fn lemma_bought_nothing_left(
    step: int,
    current_amount: int,
    curve_offset: int,
    current_price: int,
    settings: TokenSettings,
    target_amount: int,
    curve: TokenPriceData,
)
    requires
        0 <= curve_offset,
    ensures
        bought_amount_from(
            step,
            current_amount,
            curve_offset,
            0,
            current_price,
            settings,
            target_amount,
            curve,
        ) == 0,
    decreases NUM_OF_POINTS_IN_CURVE_DATA + 1 - step,
{
    if 0 <= step <= NUM_OF_POINTS_IN_CURVE_DATA {
        let d = settings.decimals as int;
        let price = buy_step_price(current_price, step, settings, curve);
        let step_amount = buy_step_amount(step, 0, price, settings, curve);
        let offset = step_offset(step, curve_offset);
        lemma_mul_div_zero(0, crate::math::pow10_spec(d), price);
        if step_amount <= offset {
            lemma_bought_nothing_left(
                step + 1,
                current_amount,
                offset - step_amount,
                price,
                settings,
                target_amount,
                curve,
            );
        } else {
            let capacity = step_amount - offset;
            lemma_mul_div_range(capacity, price, crate::math::pow10_spec(d));
            let slice_value = bought_slice_value(capacity, 0, price, settings);
            let slice_amount = bought_slice_amount(capacity, 0, price, settings);
            assert(slice_value == 0);
            let before = bought_value_before_target(
                slice_value,
                slice_amount,
                current_amount,
                target_amount,
                price,
                settings,
            );
            lemma_mul_div_range(
                target_amount + slice_amount - current_amount,
                price,
                crate::math::pow10_spec(d),
            );
            assert(before == 0);
            lemma_mul_div_zero(
                0,
                settings.token_swap_fee_before_tw_bps as int,
                BPS_DIVIDER as int,
            );
            lemma_mul_div_zero(0, settings.token_swap_fee_after_tw_bps as int, BPS_DIVIDER as int);
            assert(bought_slice_output(
                slice_value,
                slice_amount,
                current_amount,
                target_amount,
                price,
                settings,
            ) == 0);
            lemma_bought_nothing_left(
                step + 1,
                if 0 > current_amount {
                    0
                } else {
                    current_amount
                },
                0,
                price,
                settings,
                target_amount,
                curve,
            );
        }
    }
}

/// A sell step never raises the price, and with the curve switched off
/// it leaves the price as it is.
pub proof fn lemma_sell_step_price(
    price: int,
    step: int,
    settings: TokenSettings,
    curve: TokenPriceData,
)
    ensures
        sell_step_price(price, step, settings, curve) <= price,
        settings.use_curve_data != USE_CURVE_DATA ==> sell_step_price(price, step, settings, curve)
            == price,
{
}

/// A buy step never lowers the price, and with the curve switched off
/// it leaves the price as it is.
pub proof fn lemma_buy_step_price(
    price: int,
    step: int,
    settings: TokenSettings,
    curve: TokenPriceData,
)
    ensures
        buy_step_price(price, step, settings, curve) >= price,
        settings.use_curve_data != USE_CURVE_DATA ==> buy_step_price(price, step, settings, curve)
            == price,
{
}

/// With the curve switched off, the value of a sale does not depend on
/// the curve's prices: every slice is priced at the oracle's sell price.
pub proof fn lemma_sold_ignores_curve_prices(
    step: int,
    current_amount: int,
    curve_offset: int,
    amount_left: int,
    current_price: int,
    settings: TokenSettings,
    target_amount: int,
    curve: TokenPriceData,
    other: TokenPriceData,
)
    requires
        settings.use_curve_data != USE_CURVE_DATA,
        curve.amount == other.amount,
    ensures
        sold_value_from(
            step,
            current_amount,
            curve_offset,
            amount_left,
            current_price,
            settings,
            target_amount,
            curve,
        ) == sold_value_from(
            step,
            current_amount,
            curve_offset,
            amount_left,
            current_price,
            settings,
            target_amount,
            other,
        ),
    decreases NUM_OF_POINTS_IN_CURVE_DATA + 1 - step,
{
    if 0 <= step <= NUM_OF_POINTS_IN_CURVE_DATA {
        let step_amount = sell_step_amount(step, amount_left, curve);
        let offset = step_offset(step, curve_offset);
        if step_amount <= offset {
            lemma_sold_ignores_curve_prices(
                step + 1,
                current_amount,
                offset - step_amount,
                amount_left,
                current_price,
                settings,
                target_amount,
                curve,
                other,
            );
        } else {
            let slice = if step_amount - offset > amount_left {
                amount_left
            } else {
                step_amount - offset
            };
            lemma_sold_ignores_curve_prices(
                step + 1,
                current_amount + slice,
                0,
                amount_left - slice,
                current_price,
                settings,
                target_amount,
                curve,
                other,
            );
        }
    }
}

/// With the curve switched off, the amount a purchase hands out does not
/// depend on the curve's prices: every slice is priced at the oracle's
/// buy price.
pub proof fn lemma_bought_ignores_curve_prices(
    step: int,
    current_amount: int,
    curve_offset: int,
    value_left: int,
    current_price: int,
    settings: TokenSettings,
    target_amount: int,
    curve: TokenPriceData,
    other: TokenPriceData,
)
    requires
        settings.use_curve_data != USE_CURVE_DATA,
        curve.amount == other.amount,
    ensures
        bought_amount_from(
            step,
            current_amount,
            curve_offset,
            value_left,
            current_price,
            settings,
            target_amount,
            curve,
        ) == bought_amount_from(
            step,
            current_amount,
            curve_offset,
            value_left,
            current_price,
            settings,
            target_amount,
            other,
        ),
    decreases NUM_OF_POINTS_IN_CURVE_DATA + 1 - step,
{
    if 0 <= step <= NUM_OF_POINTS_IN_CURVE_DATA {
        let price = current_price;
        let step_amount = buy_step_amount(step, value_left, price, settings, curve);
        let offset = step_offset(step, curve_offset);
        if step_amount <= offset {
            lemma_bought_ignores_curve_prices(
                step + 1,
                current_amount,
                offset - step_amount,
                value_left,
                price,
                settings,
                target_amount,
                curve,
                other,
            );
        } else {
            let capacity = step_amount - offset;
            let slice_value = bought_slice_value(capacity, value_left, price, settings);
            let slice_amount = bought_slice_amount(capacity, value_left, price, settings);
            let bought = bought_slice_output(
                slice_value,
                slice_amount,
                current_amount,
                target_amount,
                price,
                settings,
            );
            lemma_bought_ignores_curve_prices(
                step + 1,
                if bought > current_amount {
                    0
                } else {
                    current_amount - bought
                },
                0,
                value_left - slice_value,
                price,
                settings,
                target_amount,
                curve,
                other,
            );
        }
    }
}

/// Namespace of the swap pricing routines.
pub struct SymmetryMath {}

impl SymmetryMath {
    /// `floor(a * b / c)`, or zero when `c` is zero or the quotient does
    /// not fit in 64 bits.
    pub fn mul_div(a: u64, b: u64, c: u64) -> (r: u64)
        ensures
            r == mul_div_spec(a as int, b as int, c as int),
    {
        crate::math::mul_div(a, b, c)
    }

    /// Dollar value of `amount` smallest units of a token with `decimals`
    /// decimals at `price` per whole token.
    pub fn amount_to_usd_value(amount: u64, decimals: u8, price: u64) -> (r: u64)
        ensures
            r == amount_to_usd_spec(amount as int, decimals as int, price as int),
    {
        crate::math::mul_div(amount, price, crate::math::pow10(decimals))
    }

    /// Smallest units of a token with `decimals` decimals that `worth`
    /// dollars buy at `price` per whole token.
    pub fn usd_value_to_amount(worth: u64, decimals: u8, price: u64) -> (r: u64)
        ensures
            r == usd_to_amount_spec(worth as int, decimals as int, price as int),
    {
        crate::math::mul_div(worth, crate::math::pow10(decimals), price)
    }

    /// Value, after fees, of one slice of a sale.
    fn sold_slice(
        slice: u64,
        current_amount: u128,
        target_amount: u64,
        price: u64,
        token_settings: &TokenSettings,
    ) -> (r: u128)
        requires
            current_amount + slice <= u128::MAX,
        ensures
            r == sold_slice_value(
                slice as int,
                current_amount as int,
                target_amount as int,
                price as int,
                *token_settings,
            ),
            r <= 2 * u64::MAX,
    {
        let amount_before_tw: u64 = if current_amount >= target_amount as u128 {
            0
        } else if current_amount + slice as u128 >= target_amount as u128 {
            (target_amount as u128 - current_amount) as u64
        } else {
            slice
        };
        let amount_after_tw: u64 = slice - amount_before_tw;
        let value_before_tw: u64 = Self::amount_to_usd_value(
            amount_before_tw,
            token_settings.decimals,
            price,
        );
        let value_after_tw: u64 = Self::amount_to_usd_value(
            amount_after_tw,
            token_settings.decimals,
            price,
        );
        let fee_before_tw: u64 = Self::mul_div(
            value_before_tw,
            token_settings.token_swap_fee_before_tw_bps as u64,
            BPS_DIVIDER,
        );
        let fee_after_tw: u64 = Self::mul_div(
            value_after_tw,
            token_settings.token_swap_fee_after_tw_bps as u64,
            BPS_DIVIDER,
        );
        proof {
            lemma_fees_bounded(value_before_tw as int, value_after_tw as int, *token_settings);
        }
        (value_before_tw - fee_before_tw) as u128 + (value_after_tw - fee_after_tw) as u128
    }

    /// Value spent on one slice of a purchase, and the units handed out
    /// for it after fees.
    fn bought_slice(
        capacity: u64,
        value_left: u64,
        current_amount: u64,
        target_amount: u64,
        price: u64,
        token_settings: &TokenSettings,
    ) -> (r: (u64, u64))
        ensures
            r.0 == bought_slice_value(capacity as int, value_left as int, price as int, *token_settings),
            r.0 <= value_left,
            r.1 == bought_slice_output(
                r.0 as int,
                bought_slice_amount(capacity as int, value_left as int, price as int, *token_settings),
                current_amount as int,
                target_amount as int,
                price as int,
                *token_settings,
            ),
    {
        let mut amount_in_interval: u64 = capacity;
        let mut value_in_interval: u64 = Self::amount_to_usd_value(
            amount_in_interval,
            token_settings.decimals,
            price,
        );
        if value_in_interval > value_left {
            value_in_interval = value_left;
            amount_in_interval = Self::usd_value_to_amount(
                value_in_interval,
                token_settings.decimals,
                price,
            );
        }
        let value_before_tw: u64 = if current_amount <= target_amount {
            0
        } else if current_amount as u128 <= target_amount as u128 + amount_in_interval as u128 {
            let below: u64 = Self::amount_to_usd_value(
                (target_amount as u128 + amount_in_interval as u128 - current_amount as u128) as u64,
                token_settings.decimals,
                price,
            );
            if below > value_in_interval {
                0
            } else {
                value_in_interval - below
            }
        } else {
            value_in_interval
        };
        let value_after_tw: u64 = value_in_interval - value_before_tw;
        let fee_before_tw: u64 = Self::mul_div(
            value_before_tw,
            token_settings.token_swap_fee_before_tw_bps as u64,
            BPS_DIVIDER,
        );
        let fee_after_tw: u64 = Self::mul_div(
            value_after_tw,
            token_settings.token_swap_fee_after_tw_bps as u64,
            BPS_DIVIDER,
        );
        proof {
            lemma_fees_bounded(value_before_tw as int, value_after_tw as int, *token_settings);
        }
        let amount_bought: u64 = Self::usd_value_to_amount(
            (value_before_tw - fee_before_tw) + (value_after_tw - fee_after_tw),
            token_settings.decimals,
            price,
        );
        (value_in_interval, amount_bought)
    }

    /// Dollar value, after fees, that the fund pays for `amount` units of
    /// a token. Selling nothing is worth nothing.
    ///
    /// The holding is counted exactly, also where it grows beyond 64
    /// bits while the amount is taken in.
    pub fn compute_value_of_sold_token(
        amount: u64,
        token_settings: TokenSettings,
        price: OraclePrice,
        start_amount: u64,
        target_amount: u64,
        curve_data: TokenPriceData,
    ) -> (r: u64)
        ensures
            r == value_of_sold(
                amount as int,
                token_settings,
                price,
                start_amount as int,
                target_amount as int,
                curve_data,
            ),
            amount == 0 ==> r == 0,
    {
        let mut current_amount: u128 = start_amount as u128;
        let mut curve_offset: u64 = if start_amount > target_amount {
            start_amount - target_amount
        } else {
            0
        };
        let mut output: u128 = 0;
        let mut amount_left: u64 = amount;
        let mut current_price: u64 = price.sell_price;
        let ghost total = sold_value_from(
            0,
            start_amount as int,
            curve_offset as int,
            amount as int,
            price.sell_price as int,
            token_settings,
            target_amount as int,
            curve_data,
        );
        proof {
            if amount == 0 {
                lemma_sold_nothing_left(
                    0,
                    start_amount as int,
                    curve_offset as int,
                    price.sell_price as int,
                    token_settings,
                    target_amount as int,
                    curve_data,
                );
            }
        }
        let mut step: usize = 0;
        while step <= NUM_OF_POINTS_IN_CURVE_DATA
            invariant
                step <= NUM_OF_POINTS_IN_CURVE_DATA + 1,
                current_amount + amount_left == start_amount + amount,
                output <= step * 2 * u64::MAX,
                output + sold_value_from(
                    step as int,
                    current_amount as int,
                    curve_offset as int,
                    amount_left as int,
                    current_price as int,
                    token_settings,
                    target_amount as int,
                    curve_data,
                ) == total,
            decreases NUM_OF_POINTS_IN_CURVE_DATA + 1 - step,
        {
            let step_amount: u64 = if step < NUM_OF_POINTS_IN_CURVE_DATA {
                curve_data.amount[step]
            } else {
                amount_left
            };
            if step < NUM_OF_POINTS_IN_CURVE_DATA && curve_data.price[step] < current_price {
                if token_settings.use_curve_data == USE_CURVE_DATA {
                    current_price = curve_data.price[step];
                }
            }
            if step == NUM_OF_POINTS_IN_CURVE_DATA {
                curve_offset = 0;
            }
            if step_amount <= curve_offset {
                curve_offset = curve_offset - step_amount;
                step = step + 1;
            } else {
                let mut amount_in_interval: u64 = step_amount - curve_offset;
                curve_offset = 0;
                if amount_in_interval > amount_left {
                    amount_in_interval = amount_left;
                }
                let slice_value: u128 = Self::sold_slice(
                    amount_in_interval,
                    current_amount,
                    target_amount,
                    current_price,
                    &token_settings,
                );
                output = output + slice_value;
                amount_left = amount_left - amount_in_interval;
                current_amount = current_amount + amount_in_interval as u128;
                if amount_left == 0 {
                    proof {
                        lemma_sold_nothing_left(
                            step + 1,
                            current_amount as int,
                            0,
                            current_price as int,
                            token_settings,
                            target_amount as int,
                            curve_data,
                        );
                    }
                    step = NUM_OF_POINTS_IN_CURVE_DATA + 1;
                } else {
                    step = step + 1;
                }
            }
        }
        if output > u64::MAX as u128 {
            0
        } else {
            output as u64
        }
    }
    /// Units of a token, after fees, that `value` dollars buy from the
    /// fund. No value buys nothing.
    ///
    /// The terminal step offers what twice the remaining value buys,
    /// where that double is capped at `u64::MAX`. If the amount it buys
    /// does not fit in 64 bits, the terminal step offers nothing, and
    /// the value that is left stays unspent.
    pub fn compute_amount_of_bought_token(
        value: u64,
        token_settings: TokenSettings,
        price: OraclePrice,
        start_amount: u64,
        target_amount: u64,
        curve_data: TokenPriceData,
    ) -> (r: u64)
        ensures
            r == amount_of_bought(
                value as int,
                token_settings,
                price,
                start_amount as int,
                target_amount as int,
                curve_data,
            ),
            value == 0 ==> r == 0,
    {
        let mut current_amount: u64 = start_amount;
        let mut curve_offset: u64 = if start_amount < target_amount {
            target_amount - start_amount
        } else {
            0
        };
        let mut output: u128 = 0;
        let mut value_left: u64 = value;
        let mut current_price: u64 = price.buy_price;
        let ghost total = bought_amount_from(
            0,
            start_amount as int,
            curve_offset as int,
            value as int,
            price.buy_price as int,
            token_settings,
            target_amount as int,
            curve_data,
        );
        proof {
            if value == 0 {
                lemma_bought_nothing_left(
                    0,
                    start_amount as int,
                    curve_offset as int,
                    price.buy_price as int,
                    token_settings,
                    target_amount as int,
                    curve_data,
                );
            }
        }
        let mut step: usize = 0;
        while step <= NUM_OF_POINTS_IN_CURVE_DATA
            invariant
                step <= NUM_OF_POINTS_IN_CURVE_DATA + 1,
                output <= step * u64::MAX,
                output + bought_amount_from(
                    step as int,
                    current_amount as int,
                    curve_offset as int,
                    value_left as int,
                    current_price as int,
                    token_settings,
                    target_amount as int,
                    curve_data,
                ) == total,
            decreases NUM_OF_POINTS_IN_CURVE_DATA + 1 - step,
        {
            if step < NUM_OF_POINTS_IN_CURVE_DATA && curve_data.price[step] > current_price {
                if token_settings.use_curve_data == USE_CURVE_DATA {
                    current_price = curve_data.price[step];
                }
            }
            let step_amount: u64 = if step < NUM_OF_POINTS_IN_CURVE_DATA {
                curve_data.amount[step]
            } else {
                Self::usd_value_to_amount(
                    crate::math::double_capped_u64(value_left),
                    token_settings.decimals,
                    current_price,
                )
            };
            if step == NUM_OF_POINTS_IN_CURVE_DATA {
                curve_offset = 0;
            }
            if step_amount <= curve_offset {
                curve_offset = curve_offset - step_amount;
                step = step + 1;
            } else {
                let amount_in_interval: u64 = step_amount - curve_offset;
                curve_offset = 0;
                let (value_in_interval, amount_bought) = Self::bought_slice(
                    amount_in_interval,
                    value_left,
                    current_amount,
                    target_amount,
                    current_price,
                    &token_settings,
                );
                output = output + amount_bought as u128;
                value_left = value_left - value_in_interval;
                if amount_bought > current_amount {
                    current_amount = 0;
                } else {
                    current_amount = current_amount - amount_bought;
                }
                if value_left == 0 {
                    proof {
                        lemma_bought_nothing_left(
                            step + 1,
                            current_amount as int,
                            0,
                            current_price as int,
                            token_settings,
                            target_amount as int,
                            curve_data,
                        );
                    }
                    step = NUM_OF_POINTS_IN_CURVE_DATA + 1;
                } else {
                    step = step + 1;
                }
            }
        }
        if output > u64::MAX as u128 {
            0
        } else {
            output as u64
        }
    }
}

} // verus!