//! Quote assembly: from a swap request and a loaded snapshot of the fund
//! to the amount paid out, the fee and the fee percentage, or to the
//! reason why the swap is refused.

use vstd::prelude::*;
use rust_decimal::Decimal;
use crate::accounts::{
    CurveData, FundState, TokenList, TokenSettings, FUND_LP_DISABLED, LP_DISABLED,
    MAX_TOKENS_IN_ASSET_POOL, NUM_TOKENS_IN_FUND,
};
use crate::error::{Error, Side};
use crate::math::{
    amount_to_usd_spec, fit_u64, mul_div, mul_div_spec,
    usd_to_amount_spec, BPS_DIVIDER, WEIGHT_MULTIPLIER,
};
use crate::percent::{decimal_with_scale, fee_percent, FEE_PCT_SCALE};
use crate::token_swap::{amount_of_bought, value_of_sold, SymmetryMath};

verus! {

/// Square of the basis-point denominator: the denominator of a weight
/// offset.
pub const BPS_SQUARED: u64 = 100_000_000;

/// Denominator of the shares in which a fee is split.
pub const FEE_SHARE_DIVIDER: u64 = 100;

/// Offset, in the first token's `additional_data`, of the three shares
/// in which a fee is split: protocol, host, manager.
pub const FEE_SHARE_OFFSET: usize = 60;

/// A swap request.
#[derive(Clone, Copy, Debug)]
pub struct QuoteParams {
    /// Amount of the input token, in its smallest unit.
    pub in_amount: u64,
    pub input_mint: [u8; 32],
    pub output_mint: [u8; 32],
}

/// An accepted swap.
#[derive(Clone, Copy, Debug)]
pub struct Quote {
    pub in_amount: u64,
    /// Amount of the output token paid out, in its smallest unit.
    pub out_amount: u64,
    /// Fee, in the smallest unit of the output token.
    pub fee_amount: u64,
    /// Mint of the token in which the fee is counted: the output token.
    pub fee_mint: [u8; 32],
    /// Fee as a percentage of the amount at average prices, with four
    /// fractional digits.
    pub fee_pct: Decimal,
}

/// The two tokens of a swap, by registry index and by position in the
/// fund.
#[derive(Clone, Copy, Debug, PartialEq, Eq, Structural)]
pub struct Route {
    pub from_id: usize,
    pub to_id: usize,
    pub from_pos: usize,
    pub to_pos: usize,
}

/// Everything a quote is computed from: the decoded accounts, with the
/// oracle prices attached to the registry, and the fund's worth.
#[derive(Clone, Copy, Debug)]
pub struct FundSnapshot {
    pub fund_state: FundState,
    pub token_list: TokenList,
    pub curve_data: CurveData,
    /// Dollar value of all holdings at average prices.
    pub fund_worth: u64,
}

/// First registry index from `start` on whose mint is `mint`, or the
/// registry's capacity if there is none.
pub open spec fn mint_index_from(tokens: TokenList, mint: Seq<u8>, start: int) -> int
    decreases MAX_TOKENS_IN_ASSET_POOL - start,
{
    if start < 0 || start >= MAX_TOKENS_IN_ASSET_POOL {
        MAX_TOKENS_IN_ASSET_POOL as int
    } else if tokens.list[start].token_mint@ == mint {
        start
    } else {
        mint_index_from(tokens, mint, start + 1)
    }
}

/// Number of populated positions of a fund.
pub open spec fn held_positions(fund: FundState) -> int {
    if fund.num_of_tokens > NUM_TOKENS_IN_FUND {
        NUM_TOKENS_IN_FUND as int
    } else {
        fund.num_of_tokens as int
    }
}

/// First populated position from `start` on that holds the registry
/// token `token_id`, or the fund's capacity if there is none.
pub open spec fn position_from(fund: FundState, token_id: int, start: int) -> int
    decreases NUM_TOKENS_IN_FUND - start,
{
    if start < 0 || start >= held_positions(fund) {
        NUM_TOKENS_IN_FUND as int
    } else if fund.current_comp_token[start] == token_id {
        start
    } else {
        position_from(fund, token_id, start + 1)
    }
}

/// `x`, capped at `u64::MAX`.
pub open spec fn cap_u64(x: int) -> int {
    if x > u64::MAX {
        u64::MAX as int
    } else {
        x
    }
}

/// `x` with one hundredth added, rounded down: the margin by which the
/// admission check overstates a swap.
pub open spec fn inflate(x: int) -> int {
    x * 101 / 100
}

/// Whether two keys hold the same bytes.
pub fn keys_equal(a: &[u8; 32], b: &[u8; 32]) -> (r: bool)
    ensures
        r == (a@ == b@),
{
    let mut i: usize = 0;
    while i < 32
        invariant
            i <= 32,
            forall|k: int| 0 <= k < i ==> a[k] == b[k],
        decreases 32 - i,
    {
        if a[i] != b[i] {
            return false;
        }
        i = i + 1;
    }
    assert(a@ =~= b@);
    true
}

impl TokenList {
    /// Registry index of the first token with this mint, or the
    /// registry's capacity if there is none.
    pub fn find_mint(&self, mint: &[u8; 32]) -> (r: usize)
        ensures
            r == mint_index_from(*self, mint@, 0),
            r <= MAX_TOKENS_IN_ASSET_POOL,
            r < MAX_TOKENS_IN_ASSET_POOL ==> self.list[r as int].token_mint@ == mint@,
    {
        let mut i: usize = 0;
        while i < MAX_TOKENS_IN_ASSET_POOL
            invariant
                i <= MAX_TOKENS_IN_ASSET_POOL,
                mint_index_from(*self, mint@, 0) == mint_index_from(*self, mint@, i as int),
            decreases MAX_TOKENS_IN_ASSET_POOL - i,
        {
            if keys_equal(&self.list[i].token_mint, mint) {
                return i;
            }
            i = i + 1;
        }
        MAX_TOKENS_IN_ASSET_POOL
    }
}

impl FundState {
    /// First populated position that holds the registry token
    /// `token_id`, or the fund's capacity if there is none.
    pub fn find_position(&self, token_id: usize) -> (r: usize)
        ensures
            r == position_from(*self, token_id as int, 0),
            r <= NUM_TOKENS_IN_FUND,
            r < NUM_TOKENS_IN_FUND ==> r < self.num_of_tokens && self.current_comp_token[r as int]
                == token_id,
    {
        let mut i: usize = 0;
        while i < NUM_TOKENS_IN_FUND && (i as u64) < self.num_of_tokens
            invariant
                i <= NUM_TOKENS_IN_FUND,
                position_from(*self, token_id as int, 0) == position_from(
                    *self,
                    token_id as int,
                    i as int,
                ),
            decreases NUM_TOKENS_IN_FUND - i,
        {
            if self.current_comp_token[i] == token_id as u64 {
                return i;
            }
            i = i + 1;
        }
        NUM_TOKENS_IN_FUND
    }
}

impl FundSnapshot {
    /// The tokens of a request, or why the request is refused before
    /// any amount is computed. The checks come in this order: input
    /// mint registered, output mint registered, both tokens open to
    /// swaps, input token held, output token held, input oracle live,
    /// output oracle live, fund open to swaps.
    pub open spec fn route(self, params: QuoteParams) -> Result<Route, Error> {
        let from_id = mint_index_from(self.token_list, params.input_mint@, 0);
        let to_id = mint_index_from(self.token_list, params.output_mint@, 0);
        let from_pos = position_from(self.fund_state, from_id, 0);
        let to_pos = position_from(self.fund_state, to_id, 0);
        if from_id >= MAX_TOKENS_IN_ASSET_POOL {
            Err(Error::TokenNotFound { side: Side::From })
        } else if to_id >= MAX_TOKENS_IN_ASSET_POOL {
            Err(Error::TokenNotFound { side: Side::To })
        } else if self.token_list.list[from_id].lp_on == LP_DISABLED || self.token_list.list[to_id].lp_on
            == LP_DISABLED {
            Err(Error::LpDisabled)
        } else if from_pos >= NUM_TOKENS_IN_FUND {
            Err(Error::TokenNotHeld { side: Side::From })
        } else if to_pos >= NUM_TOKENS_IN_FUND {
            Err(Error::TokenNotHeld { side: Side::To })
        } else if self.token_list.list[from_id].oracle_price.oracle_live != 1 {
            Err(Error::OracleOffline { token_id: from_id as u64 })
        } else if self.token_list.list[to_id].oracle_price.oracle_live != 1 {
            Err(Error::OracleOffline { token_id: to_id as u64 })
        } else if self.fund_state.lp_disabled == FUND_LP_DISABLED {
            Err(Error::LpDisabled)
        } else {
            Ok(
                Route {
                    from_id: from_id as usize,
                    to_id: to_id as usize,
                    from_pos: from_pos as usize,
                    to_pos: to_pos as usize,
                },
            )
        }
    }

    /// Whether a route names tokens of the registry and positions of
    /// the fund.
    pub open spec fn route_in_range(route: Route) -> bool {
        &&& route.from_id < MAX_TOKENS_IN_ASSET_POOL
        &&& route.to_id < MAX_TOKENS_IN_ASSET_POOL
        &&& route.from_pos < NUM_TOKENS_IN_FUND
        &&& route.to_pos < NUM_TOKENS_IN_FUND
    }

    /// Registry entry of the input token.
    pub open spec fn from_settings(self, route: Route) -> TokenSettings {
        self.token_list.list[route.from_id as int]
    }

    /// Registry entry of the output token.
    pub open spec fn to_settings(self, route: Route) -> TokenSettings {
        self.token_list.list[route.to_id as int]
    }

    /// The fund's holding of the input token.
    pub open spec fn held_from(self, route: Route) -> int {
        self.fund_state.current_comp_amount[route.from_pos as int] as int
    }

    /// The fund's holding of the output token.
    pub open spec fn held_to(self, route: Route) -> int {
        self.fund_state.current_comp_amount[route.to_pos as int] as int
    }

    /// Holding of the registry token `token_id` at which the position
    /// `pos` has its target weight.
    pub open spec fn target_amount(self, token_id: int, pos: int) -> int {
        let settings = self.token_list.list[token_id];
        usd_to_amount_spec(
            mul_div_spec(
                self.fund_state.target_weight[pos] as int,
                self.fund_worth as int,
                self.fund_state.weight_sum as int,
            ),
            settings.decimals as int,
            settings.oracle_price.avg_price as int,
        )
    }

    /// Dollar value that the sale of the input amount brings.
    pub open spec fn sold_value(self, route: Route, in_amount: int) -> int {
        value_of_sold(
            in_amount,
            self.from_settings(route),
            self.from_settings(route).oracle_price,
            self.held_from(route),
            self.target_amount(route.from_id as int, route.from_pos as int),
            self.curve_data.sell[route.from_id as int],
        )
    }

    /// Output amount that the value of the sale buys, curve and fees
    /// included.
    pub open spec fn bought_amount(self, route: Route, in_amount: int) -> int {
        amount_of_bought(
            self.sold_value(route, in_amount),
            self.to_settings(route),
            self.to_settings(route).oracle_price,
            self.held_to(route),
            self.target_amount(route.to_id as int, route.to_pos as int),
            self.curve_data.buy[route.to_id as int],
        )
    }

    /// Output amount for the input amount at the given prices, without
    /// curve or fees.
    pub open spec fn reference_amount(
        self,
        route: Route,
        in_amount: int,
        from_price: int,
        to_price: int,
    ) -> int {
        usd_to_amount_spec(
            amount_to_usd_spec(in_amount, self.from_settings(route).decimals as int, from_price),
            self.to_settings(route).decimals as int,
            to_price,
        )
    }

    /// The most the fund pays out: the output amount at the oracle's
    /// sell and buy prices, and never more than it holds.
    pub open spec fn fee_free_amount(self, route: Route, in_amount: int) -> int {
        let ideal = self.reference_amount(
            route,
            in_amount,
            self.from_settings(route).oracle_price.sell_price as int,
            self.to_settings(route).oracle_price.buy_price as int,
        );
        if ideal > self.held_to(route) {
            self.held_to(route)
        } else {
            ideal
        }
    }

    /// Output amount at average prices: the base of the fee percentage.
    pub open spec fn fair_amount(self, route: Route, in_amount: int) -> int {
        self.reference_amount(
            route,
            in_amount,
            self.from_settings(route).oracle_price.avg_price as int,
            self.to_settings(route).oracle_price.avg_price as int,
        )
    }

    /// Amount paid out: what the value of the sale buys, and never more
    /// than the fee-free amount.
    pub open spec fn out_amount(self, route: Route, in_amount: int) -> int {
        if self.bought_amount(route, in_amount) > self.fee_free_amount(route, in_amount) {
            self.fee_free_amount(route, in_amount)
        } else {
            self.bought_amount(route, in_amount)
        }
    }

    /// Fee: what the fee-free amount exceeds the amount paid out by.
    pub open spec fn total_fees(self, route: Route, in_amount: int) -> int {
        self.fee_free_amount(route, in_amount) - self.out_amount(route, in_amount)
    }

    /// Share `k` of the fee: 0 for the protocol, 1 for the host, 2 for
    /// the manager. The shares are read from the first registry entry.
    pub open spec fn fee_share(self, route: Route, in_amount: int, k: int) -> int {
        mul_div_spec(
            self.total_fees(route, in_amount),
            self.token_list.list[0].additional_data[FEE_SHARE_OFFSET + k] as int,
            FEE_SHARE_DIVIDER as int,
        )
    }

    /// What is left of the fee for the fund after the three shares, or
    /// nothing if they exceed it.
    pub open spec fn fund_fee(self, route: Route, in_amount: int) -> int {
        let rest = self.total_fees(route, in_amount) - self.fee_share(route, in_amount, 0)
            - self.fee_share(route, in_amount, 1) - self.fee_share(route, in_amount, 2);
        if rest < 0 {
            0
        } else {
            rest
        }
    }

    /// Fee in millionths of the fair amount: a percentage with four
    /// fractional digits.
    pub open spec fn fee_pct_scaled(self, route: Route, in_amount: int) -> int {
        mul_div_spec(
            self.total_fees(route, in_amount),
            BPS_DIVIDER * 100,
            self.fair_amount(route, in_amount),
        )
    }

    /// Worth of the input holding before the swap, at the average price.
    pub open spec fn from_worth_before(self, route: Route) -> int {
        amount_to_usd_spec(
            self.held_from(route),
            self.from_settings(route).decimals as int,
            self.from_settings(route).oracle_price.avg_price as int,
        )
    }

    /// Worth of the output holding before the swap, at the average price.
    pub open spec fn to_worth_before(self, route: Route) -> int {
        amount_to_usd_spec(
            self.held_to(route),
            self.to_settings(route).decimals as int,
            self.to_settings(route).oracle_price.avg_price as int,
        )
    }

    /// Worth of the input holding after it took in the inflated input
    /// amount. A holding above `u64::MAX` counts as `u64::MAX`.
    pub open spec fn from_worth_after(self, route: Route, in_amount: int) -> int {
        amount_to_usd_spec(
            cap_u64(self.held_from(route) + inflate(in_amount)),
            self.from_settings(route).decimals as int,
            self.from_settings(route).oracle_price.avg_price as int,
        )
    }

    /// Output amount that the admission check assumes to leave the fund:
    /// the inflated fee-free amount less the fund's own fee, and never
    /// more than the holding.
    pub open spec fn safe_to_amount(self, route: Route, in_amount: int) -> int {
        let leaving = inflate(
            self.fee_free_amount(route, in_amount) - self.fund_fee(route, in_amount),
        );
        if leaving > self.held_to(route) {
            self.held_to(route)
        } else {
            leaving
        }
    }

    /// Worth of the output holding after the assumed amount left it.
    pub open spec fn to_worth_after(self, route: Route, in_amount: int) -> int {
        amount_to_usd_spec(
            self.held_to(route) - self.safe_to_amount(route, in_amount),
            self.to_settings(route).decimals as int,
            self.to_settings(route).oracle_price.avg_price as int,
        )
    }

    /// The fund's worth after the swap, as the admission check projects
    /// it: both new worths are added, then each old worth is taken off
    /// as far as there is anything left. A projection that does not fit
    /// in 64 bits is zero.
    pub open spec fn projected_worth(self, route: Route, in_amount: int) -> int {
        let grown = self.fund_worth + self.from_worth_after(route, in_amount)
            + self.to_worth_after(route, in_amount);
        let less_from = if grown < self.from_worth_before(route) {
            0
        } else {
            grown - self.from_worth_before(route)
        };
        let less_to = if less_from < self.to_worth_before(route) {
            0
        } else {
            less_from - self.to_worth_before(route)
        };
        fit_u64(less_to)
    }

    /// Weight of the input token after the swap.
    pub open spec fn from_new_weight(self, route: Route, in_amount: int) -> int {
        mul_div_spec(
            self.from_worth_after(route, in_amount),
            WEIGHT_MULTIPLIER as int,
            self.projected_worth(route, in_amount),
        )
    }

    /// Weight of the output token after the swap.
    pub open spec fn to_new_weight(self, route: Route, in_amount: int) -> int {
        mul_div_spec(
            self.to_worth_after(route, in_amount),
            WEIGHT_MULTIPLIER as int,
            self.projected_worth(route, in_amount),
        )
    }

    /// Allowed deviation of a weight from its target, in units of
    /// `1 / BPS_SQUARED` of the target.
    pub open spec fn allowed_offset(self) -> int {
        self.fund_state.rebalance_threshold * self.fund_state.lp_offset_threshold
    }

    /// Largest weight the input token may reach.
    pub open spec fn allowed_from_weight(self, route: Route) -> int {
        let widened = mul_div_spec(
            self.fund_state.target_weight[route.from_pos as int] as int,
            cap_u64(BPS_SQUARED + self.allowed_offset()),
            BPS_SQUARED as int,
        );
        if widened > WEIGHT_MULTIPLIER {
            WEIGHT_MULTIPLIER as int
        } else {
            widened
        }
    }

    /// Smallest weight the output token may fall to.
    pub open spec fn allowed_to_weight(self, route: Route) -> int {
        mul_div_spec(
            self.fund_state.target_weight[route.to_pos as int] as int,
            if self.allowed_offset() > BPS_SQUARED {
                0
            } else {
                BPS_SQUARED - self.allowed_offset()
            },
            BPS_SQUARED as int,
        )
    }

    /// Whether the swap sells the first registry token for a token whose
    /// target weight is zero. Such a swap may exceed the input token's
    /// band.
    pub open spec fn removing_dust(self, route: Route) -> bool {
        route.from_id == 0 && self.fund_state.target_weight[route.to_pos as int] == 0
    }

    /// Why a routed swap of `in_amount` is refused, if it is. The checks
    /// come in this order: the fair amount is not zero, the projected
    /// worth is not zero, the input token stays in its band, the output
    /// token stays in its band.
    pub open spec fn refusal(self, route: Route, in_amount: int) -> Option<Error> {
        if self.fair_amount(route, in_amount) == 0 {
            Some(Error::ArithmeticDegenerate)
        } else if self.projected_worth(route, in_amount) == 0 {
            Some(Error::ArithmeticDegenerate)
        } else if self.from_new_weight(route, in_amount) > self.allowed_from_weight(route)
            && !self.removing_dust(route) {
            Some(Error::WeightOutOfBand { side: Side::From })
        } else if self.to_new_weight(route, in_amount) < self.allowed_to_weight(route) {
            Some(Error::WeightOutOfBand { side: Side::To })
        } else {
            None
        }
    }

    /// Finds the two tokens of a request and checks that they can be
    /// swapped at all.
    pub fn find_route(&self, params: &QuoteParams) -> (r: Result<Route, Error>)
        ensures
            r == self.route(*params),
            r matches Ok(route) ==> Self::route_in_range(route),
    {
        let from_id: usize = self.token_list.find_mint(&params.input_mint);
        if from_id >= MAX_TOKENS_IN_ASSET_POOL {
            return Err(Error::TokenNotFound { side: Side::From });
        }
        let to_id: usize = self.token_list.find_mint(&params.output_mint);
        if to_id >= MAX_TOKENS_IN_ASSET_POOL {
            return Err(Error::TokenNotFound { side: Side::To });
        }
        if self.token_list.list[from_id].lp_on == LP_DISABLED || self.token_list.list[to_id].lp_on
            == LP_DISABLED {
            return Err(Error::LpDisabled);
        }
        let from_pos: usize = self.fund_state.find_position(from_id);
        if from_pos >= NUM_TOKENS_IN_FUND {
            return Err(Error::TokenNotHeld { side: Side::From });
        }
        let to_pos: usize = self.fund_state.find_position(to_id);
        if to_pos >= NUM_TOKENS_IN_FUND {
            return Err(Error::TokenNotHeld { side: Side::To });
        }
        if self.token_list.list[from_id].oracle_price.oracle_live != 1 {
            return Err(Error::OracleOffline { token_id: from_id as u64 });
        }
        if self.token_list.list[to_id].oracle_price.oracle_live != 1 {
            return Err(Error::OracleOffline { token_id: to_id as u64 });
        }
        if self.fund_state.lp_disabled == FUND_LP_DISABLED {
            return Err(Error::LpDisabled);
        }
        Ok(Route { from_id, to_id, from_pos, to_pos })
    }

    /// Holding of a registry token at which a position has its target
    /// weight.
    pub fn compute_target_amount(&self, token_id: usize, pos: usize) -> (r: u64)
        requires
            token_id < MAX_TOKENS_IN_ASSET_POOL,
            pos < NUM_TOKENS_IN_FUND,
        ensures
            r == self.target_amount(token_id as int, pos as int),
    {
        let settings = self.token_list.list[token_id];
        SymmetryMath::usd_value_to_amount(
            mul_div(self.fund_state.target_weight[pos], self.fund_worth, self.fund_state.weight_sum),
            settings.decimals,
            settings.oracle_price.avg_price,
        )
    }
    /// Output amount for the input amount at the given prices, without
    /// curve or fees.
    fn compute_reference_amount(
        &self,
        route: Route,
        in_amount: u64,
        from_price: u64,
        to_price: u64,
    ) -> (r: u64)
        requires
            Self::route_in_range(route),
        ensures
            r == self.reference_amount(route, in_amount as int, from_price as int, to_price as int),
    {
        SymmetryMath::usd_value_to_amount(
            SymmetryMath::amount_to_usd_value(
                in_amount,
                self.token_list.list[route.from_id].decimals,
                from_price,
            ),
            self.token_list.list[route.to_id].decimals,
            to_price,
        )
    }

    /// The fee-free amount and the amount paid out.
    fn compute_amounts(&self, route: Route, in_amount: u64) -> (r: (u64, u64))
        requires
            Self::route_in_range(route),
        ensures
            r.0 == self.fee_free_amount(route, in_amount as int),
            r.1 == self.out_amount(route, in_amount as int),
            r.1 <= r.0 <= self.held_to(route),
    {
        let from = self.token_list.list[route.from_id];
        let to = self.token_list.list[route.to_id];
        let held_from: u64 = self.fund_state.current_comp_amount[route.from_pos];
        let held_to: u64 = self.fund_state.current_comp_amount[route.to_pos];
        let from_target: u64 = self.compute_target_amount(route.from_id, route.from_pos);
        let to_target: u64 = self.compute_target_amount(route.to_id, route.to_pos);
        let value: u64 = SymmetryMath::compute_value_of_sold_token(
            in_amount,
            from,
            from.oracle_price,
            held_from,
            from_target,
            self.curve_data.sell[route.from_id],
        );
        let mut to_amount: u64 = SymmetryMath::compute_amount_of_bought_token(
            value,
            to,
            to.oracle_price,
            held_to,
            to_target,
            self.curve_data.buy[route.to_id],
        );
        let mut amount_without_fees: u64 = self.compute_reference_amount(
            route,
            in_amount,
            from.oracle_price.sell_price,
            to.oracle_price.buy_price,
        );
        if amount_without_fees > held_to {
            amount_without_fees = held_to;
        }
        if to_amount > amount_without_fees {
            to_amount = amount_without_fees;
        }
        (amount_without_fees, to_amount)
    }

    /// What is left of a fee for the fund after the three shares.
    fn compute_fund_fee(&self, route: Route, in_amount: u64, total_fees: u64) -> (r: u64)
        requires
            total_fees == self.total_fees(route, in_amount as int),
        ensures
            r == self.fund_fee(route, in_amount as int),
            r <= total_fees,
    {
        let shares = self.token_list.list[0].additional_data;
        let symmetry_fee: u64 = mul_div(
            total_fees,
            shares[FEE_SHARE_OFFSET] as u64,
            FEE_SHARE_DIVIDER,
        );
        let host_fee: u64 = mul_div(
            total_fees,
            shares[FEE_SHARE_OFFSET + 1] as u64,
            FEE_SHARE_DIVIDER,
        );
        let manager_fee: u64 = mul_div(
            total_fees,
            shares[FEE_SHARE_OFFSET + 2] as u64,
            FEE_SHARE_DIVIDER,
        );
        let shared: u128 = symmetry_fee as u128 + host_fee as u128 + manager_fee as u128;
        if shared > total_fees as u128 {
            0
        } else {
            total_fees - shared as u64
        }
    }

    /// The fund's worth after the swap as the admission check projects
    /// it, and the worths of the two holdings after the swap.
    fn compute_projection(&self, route: Route, in_amount: u64, fee_free: u64, fund_fee: u64) -> (r:
        (u64, u64, u64))
        requires
            Self::route_in_range(route),
            fee_free == self.fee_free_amount(route, in_amount as int),
            fund_fee == self.fund_fee(route, in_amount as int),
            fund_fee <= fee_free,
        ensures
            r.0 == self.projected_worth(route, in_amount as int),
            r.1 == self.from_worth_after(route, in_amount as int),
            r.2 == self.to_worth_after(route, in_amount as int),
    {
        let from = self.token_list.list[route.from_id];
        let to = self.token_list.list[route.to_id];
        let held_from: u64 = self.fund_state.current_comp_amount[route.from_pos];
        let held_to: u64 = self.fund_state.current_comp_amount[route.to_pos];
        let from_worth_before: u64 = SymmetryMath::amount_to_usd_value(
            held_from,
            from.decimals,
            from.oracle_price.avg_price,
        );
        let to_worth_before: u64 = SymmetryMath::amount_to_usd_value(
            held_to,
            to.decimals,
            to.oracle_price.avg_price,
        );
        let safe_from_amount: u128 = in_amount as u128 * 101 / 100;
        let from_amount_after: u64 = if held_from as u128 + safe_from_amount > u64::MAX as u128 {
            u64::MAX
        } else {
            (held_from as u128 + safe_from_amount) as u64
        };
        let from_worth_after: u64 = SymmetryMath::amount_to_usd_value(
            from_amount_after,
            from.decimals,
            from.oracle_price.avg_price,
        );
        let leaving: u128 = (fee_free - fund_fee) as u128 * 101 / 100;
        let safe_to_amount: u64 = if leaving > held_to as u128 {
            held_to
        } else {
            leaving as u64
        };
        let to_worth_after: u64 = SymmetryMath::amount_to_usd_value(
            held_to - safe_to_amount,
            to.decimals,
            to.oracle_price.avg_price,
        );
        let grown: u128 = self.fund_worth as u128 + from_worth_after as u128
            + to_worth_after as u128;
        let less_from: u128 = if grown < from_worth_before as u128 {
            0
        } else {
            grown - from_worth_before as u128
        };
        let less_to: u128 = if less_from < to_worth_before as u128 {
            0
        } else {
            less_from - to_worth_before as u128
        };
        let projected: u64 = if less_to > u64::MAX as u128 {
            0
        } else {
            less_to as u64
        };
        (projected, from_worth_after, to_worth_after)
    }

    /// The largest weight the input token may reach and the smallest the
    /// output token may fall to.
    fn compute_band(&self, route: Route) -> (r: (u64, u64))
        requires
            Self::route_in_range(route),
        ensures
            r.0 == self.allowed_from_weight(route),
            r.1 == self.allowed_to_weight(route),
    {
        let rebalance_threshold: u64 = self.fund_state.rebalance_threshold;
        let lp_offset_threshold: u64 = self.fund_state.lp_offset_threshold;
        assert(rebalance_threshold * lp_offset_threshold <= 0xFFFF_FFFF_FFFF_FFFF
            * 0xFFFF_FFFF_FFFF_FFFF) by (nonlinear_arith)
            requires
                rebalance_threshold <= 0xFFFF_FFFF_FFFF_FFFF,
                lp_offset_threshold <= 0xFFFF_FFFF_FFFF_FFFF,
        ;
        let allowed_offset: u128 = rebalance_threshold as u128 * lp_offset_threshold as u128;
        let widening: u64 = if BPS_SQUARED as u128 + allowed_offset > u64::MAX as u128 {
            u64::MAX
        } else {
            (BPS_SQUARED as u128 + allowed_offset) as u64
        };
        let narrowing: u64 = if allowed_offset > BPS_SQUARED as u128 {
            0
        } else {
            BPS_SQUARED - allowed_offset as u64
        };
        let mut allowed_from: u64 = mul_div(
            self.fund_state.target_weight[route.from_pos],
            widening,
            BPS_SQUARED,
        );
        if allowed_from > WEIGHT_MULTIPLIER {
            allowed_from = WEIGHT_MULTIPLIER;
        }
        let allowed_to: u64 = mul_div(
            self.fund_state.target_weight[route.to_pos],
            narrowing,
            BPS_SQUARED,
        );
        (allowed_from, allowed_to)
    }

    /// Quotes a swap.
    ///
    /// A request is refused for the first reason that `route` finds, or
    /// else for the first that `refusal` finds. An accepted swap pays
    /// out no more than the fee-free amount, which is no more than the
    /// fund holds, and the fee is what lies between the two.
    pub fn quote(&self, params: &QuoteParams) -> (r: Result<Quote, Error>)
        ensures
            match self.route(*params) {
                Err(e) => r == Err::<Quote, Error>(e),
                Ok(route) => match self.refusal(route, params.in_amount as int) {
                    Some(e) => r == Err::<Quote, Error>(e),
                    None => {
                        &&& r matches Ok(q)
                        &&& q.in_amount == params.in_amount
                        &&& q.out_amount == self.out_amount(route, params.in_amount as int)
                        &&& q.fee_amount == self.total_fees(route, params.in_amount as int)
                        &&& q.fee_mint == params.output_mint
                        &&& q.fee_pct == decimal_with_scale(
                            self.fee_pct_scaled(route, params.in_amount as int) as i128,
                            FEE_PCT_SCALE,
                        )
                    },
                },
            },
            r matches Ok(q) ==> {
                &&& self.route(*params) matches Ok(route)
                &&& q.out_amount <= self.fee_free_amount(route, params.in_amount as int)
                    <= self.held_to(route)
                &&& q.fee_amount == self.fee_free_amount(route, params.in_amount as int)
                    - q.out_amount
            },
    {
        let route = match self.find_route(params) {
            Ok(route) => route,
            Err(e) => {
                return Err(e);
            },
        };
        let in_amount: u64 = params.in_amount;
        let from = self.token_list.list[route.from_id];
        let to = self.token_list.list[route.to_id];
        let (amount_without_fees, to_amount) = self.compute_amounts(route, in_amount);
        let fair_amount: u64 = self.compute_reference_amount(
            route,
            in_amount,
            from.oracle_price.avg_price,
            to.oracle_price.avg_price,
        );
        if fair_amount == 0 {
            return Err(Error::ArithmeticDegenerate);
        }
        let total_fees: u64 = amount_without_fees - to_amount;
        let fund_fee: u64 = self.compute_fund_fee(route, in_amount, total_fees);
        let fee_pct_scaled: u64 = mul_div(total_fees, BPS_DIVIDER * 100, fair_amount);
        let (fund_worth, from_worth_after, to_worth_after) = self.compute_projection(
            route,
            in_amount,
            amount_without_fees,
            fund_fee,
        );
        if fund_worth == 0 {
            return Err(Error::ArithmeticDegenerate);
        }
        let from_new_weight: u64 = mul_div(from_worth_after, WEIGHT_MULTIPLIER, fund_worth);
        let to_new_weight: u64 = mul_div(to_worth_after, WEIGHT_MULTIPLIER, fund_worth);
        let (allowed_from_target_weight, allowed_to_target_weight) = self.compute_band(route);
        let removing_dust: bool = route.from_id == 0 && self.fund_state.target_weight[route.to_pos]
            == 0;
        if from_new_weight > allowed_from_target_weight && !removing_dust {
            return Err(Error::WeightOutOfBand { side: Side::From });
        }
        if to_new_weight < allowed_to_target_weight {
            return Err(Error::WeightOutOfBand { side: Side::To });
        }
        Ok(
            Quote {
                in_amount,
                out_amount: to_amount,
                fee_amount: total_fees,
                fee_mint: params.output_mint,
                fee_pct: fee_percent(fee_pct_scaled),
            },
        )
    }
}

} // verus!
