//! Typed records of the fund's accounts and their fixed byte layouts.

use vstd::prelude::*;
use crate::bytes::{all_zero, as_signed64, le_u64_spec, read_array, read_u64};
use crate::error::{AccountKind, Error};

verus! {

/// Length of a fund state account.
pub const FUND_STATE_ACCOUNT_SIZE: usize = 10208;

/// Length of the token registry account.
pub const TOKEN_LIST_ACCOUNT_SIZE: usize = 39816;

/// Length of the curve table account.
pub const CURVE_DATA_ACCOUNT_SIZE: usize = 64008;

/// Lengths of an oracle account, by oracle type.
pub const ORACLE_ACCOUNT_SIZE: [usize; 2] = [3312, 809];

/// Length of the clock account.
pub const CLOCK_ACCOUNT_SIZE: usize = 40;

/// Length of one registry entry.
pub const TOKEN_SETTINGS_SIZE: usize = 199;

/// Length of one side of one token's curve.
pub const TOKEN_PRICE_DATA_SIZE: usize = 160;

/// Offset of the first buy side in the curve table account.
pub const CURVE_BUY_OFFSET: usize = 8;

/// Offset of the first sell side in the curve table account.
pub const CURVE_SELL_OFFSET: usize = 32008;

/// Largest number of tokens in the registry.
pub const MAX_TOKENS_IN_ASSET_POOL: usize = 100;

/// Largest number of tokens one fund holds.
pub const NUM_TOKENS_IN_FUND: usize = 20;

/// Number of points of one side of a token's pricing curve.
pub const NUM_OF_POINTS_IN_CURVE_DATA: usize = 10;

/// Value of `use_curve_data` that lets the curve override the oracle.
pub const USE_CURVE_DATA: u8 = 1;

/// Value of `lp_disabled` that closes a fund to swaps.
pub const FUND_LP_DISABLED: u64 = 1;

/// Value of `lp_on` that closes a token to swaps.
pub const LP_DISABLED: u8 = 0;

/// State of one fund.
#[derive(Clone, Copy, Debug)]
pub struct FundState {
    pub manager: [u8; 32],
    pub host_pubkey: [u8; 32],
    /// Number of populated positions.
    pub num_of_tokens: u64,
    /// Registry index of the token at each position.
    pub current_comp_token: [u64; NUM_TOKENS_IN_FUND],
    /// Holding at each position, in the token's smallest unit.
    pub current_comp_amount: [u64; NUM_TOKENS_IN_FUND],
    /// Target weight at each position, in ten-thousandths.
    pub target_weight: [u64; NUM_TOKENS_IN_FUND],
    pub weight_sum: u64,
    pub rebalance_threshold: u64,
    pub lp_offset_threshold: u64,
    pub lp_disabled: u64,
}

/// Normalised price of one token, in `ONE_USD` units per whole token.
#[derive(Clone, Copy, Debug, PartialEq, Eq, Structural)]
pub struct OraclePrice {
    /// Price at which the fund buys the token from a seller.
    pub sell_price: u64,
    pub avg_price: u64,
    /// Price at which the fund sells the token to a buyer.
    pub buy_price: u64,
    /// 1 when the oracle is live, else 0.
    pub oracle_live: u8,
}

/// Registry entry of one token.
#[derive(Clone, Copy, Debug)]
pub struct TokenSettings {
    pub token_mint: [u8; 32],
    pub decimals: u8,
    /// Free-form identifier. No decoder reads it: it stays zero.
    pub coingecko_id: [u8; 30],
    pub pda_token_account: [u8; 32],
    pub oracle_type: u8,
    pub oracle_account: [u8; 32],
    pub oracle_index: u8,
    pub oracle_confidence_pct: u8,
    pub fixed_confidence_bps: u8,
    pub token_swap_fee_after_tw_bps: u8,
    pub token_swap_fee_before_tw_bps: u8,
    pub is_live: u8,
    pub lp_on: u8,
    pub use_curve_data: u8,
    pub additional_data: [u8; 63],
    /// Price attached after the token's oracle account was normalised.
    pub oracle_price: OraclePrice,
}

/// Registry of the supported tokens.
#[derive(Clone, Copy, Debug)]
pub struct TokenList {
    pub num_tokens: u64,
    pub list: [TokenSettings; MAX_TOKENS_IN_ASSET_POOL],
}

/// One side of a token's pricing curve.
#[derive(Clone, Copy, Debug)]
pub struct TokenPriceData {
    /// Capacity of each curve step, in the token's smallest unit.
    pub amount: [u64; NUM_OF_POINTS_IN_CURVE_DATA],
    /// Price of each curve step, in `ONE_USD` units per whole token.
    pub price: [u64; NUM_OF_POINTS_IN_CURVE_DATA],
}

/// Pricing curves of every registry token.
#[derive(Clone, Copy, Debug)]
pub struct CurveData {
    pub buy: [TokenPriceData; MAX_TOKENS_IN_ASSET_POOL],
    pub sell: [TokenPriceData; MAX_TOKENS_IN_ASSET_POOL],
}

/// The chain clock at the time of a price update.
#[derive(Clone, Copy, Debug, PartialEq, Eq, Structural)]
pub struct Clock {
    pub slot: u64,
    /// Seconds since the Unix epoch.
    pub unix_timestamp: i64,
}

impl Clock {
    /// The clock that a clock account holds: the slot in its first
    /// eight bytes, the time as a signed number in its last eight.
    pub open spec fn decoded(data: Seq<u8>) -> Clock {
        Clock {
            slot: le_u64_spec(data, 0) as u64,
            unix_timestamp: as_signed64(le_u64_spec(data, 32)) as i64,
        }
    }

    /// Decodes the clock account. The length is the only thing that can
    /// be wrong with it.
    pub fn load(account_data: &[u8]) -> (r: Result<Clock, Error>)
        ensures
            account_data.len() == CLOCK_ACCOUNT_SIZE ==> r == Ok::<Clock, Error>(
                Clock::decoded(account_data@),
            ),
            account_data.len() != CLOCK_ACCOUNT_SIZE ==> r == Err::<Clock, Error>(
                Error::WrongAccountSize {
                    what: AccountKind::Clock,
                    expected: CLOCK_ACCOUNT_SIZE,
                    got: account_data.len(),
                },
            ),
    {
        if account_data.len() != CLOCK_ACCOUNT_SIZE {
            return Err(
                Error::WrongAccountSize {
                    what: AccountKind::Clock,
                    expected: CLOCK_ACCOUNT_SIZE,
                    got: account_data.len(),
                },
            );
        }
        let slot: u64 = read_u64(account_data, 0);
        let time_bits: u64 = read_u64(account_data, 32);
        let unix_timestamp: i64 = if time_bits >= 0x8000_0000_0000_0000 {
            (time_bits - 0x8000_0000_0000_0000) as i64 + i64::MIN
        } else {
            time_bits as i64
        };
        Ok(Clock { slot, unix_timestamp })
    }
}

impl FundState {
    /// Whether this is the fund state that the account bytes `data` hold.
    pub open spec fn decoded_from(self, data: Seq<u8>) -> bool {
        &&& self.manager@ == data.subrange(16, 48)
        &&& self.host_pubkey@ == data.subrange(128, 160)
        &&& self.num_of_tokens == le_u64_spec(data, 168)
        &&& forall|i: int|
            #![trigger self.current_comp_token[i]]
            #![trigger self.current_comp_amount[i]]
            #![trigger self.target_weight[i]]
            0 <= i < NUM_TOKENS_IN_FUND ==> {
                &&& self.current_comp_token[i] == le_u64_spec(data, 176 + 8 * i)
                &&& self.current_comp_amount[i] == le_u64_spec(data, 336 + 8 * i)
                &&& self.target_weight[i] == le_u64_spec(data, 656 + 8 * i)
            }
        &&& self.weight_sum == le_u64_spec(data, 816)
        &&& self.rebalance_threshold == le_u64_spec(data, 1024)
        &&& self.lp_offset_threshold == le_u64_spec(data, 1040)
        &&& self.lp_disabled == le_u64_spec(data, 9432)
    }

    /// Decodes a fund state account. The length is the only thing that
    /// can be wrong with it.
    pub fn load(account_data: &[u8]) -> (r: Result<FundState, Error>)
        ensures
            account_data.len() == FUND_STATE_ACCOUNT_SIZE ==> r is Ok && r->Ok_0.decoded_from(
                account_data@,
            ),
            account_data.len() != FUND_STATE_ACCOUNT_SIZE ==> r == Err::<FundState, Error>(
                Error::WrongAccountSize {
                    what: AccountKind::FundState,
                    expected: FUND_STATE_ACCOUNT_SIZE,
                    got: account_data.len(),
                },
            ),
    {
        if account_data.len() != FUND_STATE_ACCOUNT_SIZE {
            return Err(
                Error::WrongAccountSize {
                    what: AccountKind::FundState,
                    expected: FUND_STATE_ACCOUNT_SIZE,
                    got: account_data.len(),
                },
            );
        }
        let mut current_comp_token = [0u64; NUM_TOKENS_IN_FUND];
        let mut current_comp_amount = [0u64; NUM_TOKENS_IN_FUND];
        let mut target_weight = [0u64; NUM_TOKENS_IN_FUND];
        let mut i: usize = 0;
        while i < NUM_TOKENS_IN_FUND
            invariant
                i <= NUM_TOKENS_IN_FUND,
                account_data.len() == FUND_STATE_ACCOUNT_SIZE,
                forall|k: int|
                    0 <= k < i ==> {
                        &&& current_comp_token[k] == le_u64_spec(account_data@, 176 + 8 * k)
                        &&& current_comp_amount[k] == le_u64_spec(account_data@, 336 + 8 * k)
                        &&& target_weight[k] == le_u64_spec(account_data@, 656 + 8 * k)
                    },
            decreases NUM_TOKENS_IN_FUND - i,
        {
            current_comp_token[i] = read_u64(account_data, 176 + i * 8);
            current_comp_amount[i] = read_u64(account_data, 336 + i * 8);
            target_weight[i] = read_u64(account_data, 656 + i * 8);
            i = i + 1;
        }
        Ok(
            FundState {
                manager: read_array::<32>(account_data, 16),
                host_pubkey: read_array::<32>(account_data, 128),
                num_of_tokens: read_u64(account_data, 168),
                current_comp_token,
                current_comp_amount,
                target_weight,
                weight_sum: read_u64(account_data, 816),
                rebalance_threshold: read_u64(account_data, 1024),
                lp_offset_threshold: read_u64(account_data, 1040),
                lp_disabled: read_u64(account_data, 9432),
            },
        )
    }
}

impl FundState {
    /// Sum of the target weights of the first `n` positions.
    pub open spec fn weight_total(self, n: int) -> int
        decreases n,
    {
        if n <= 0 {
            0
        } else {
            self.weight_total(n - 1) + self.target_weight[n - 1]
        }
    }

    /// Whether no two of the first `n` positions hold the same token.
    pub open spec fn tokens_distinct(self, n: int) -> bool {
        forall|i: int, j: int|
            0 <= i < j < n ==> self.current_comp_token[i] != self.current_comp_token[j]
    }

    /// Whether the fund state is one that the fund's program keeps: no
    /// more positions than the fund has room for, every populated
    /// position holding a registry token of its own, and the target
    /// weights of the populated positions adding up to the weight sum.
    pub open spec fn well_formed(self) -> bool {
        &&& self.num_of_tokens <= NUM_TOKENS_IN_FUND
        &&& forall|i: int|
            0 <= i < self.num_of_tokens ==> self.current_comp_token[i] < MAX_TOKENS_IN_ASSET_POOL
        &&& self.tokens_distinct(self.num_of_tokens as int)
        &&& self.weight_total(self.num_of_tokens as int) == self.weight_sum
    }

    /// Checks that the fund state is well formed. A decoder does not:
    /// it accepts every account of the right length.
    pub fn is_well_formed(&self) -> (r: bool)
        ensures
            r == self.well_formed(),
    {
        if self.num_of_tokens > NUM_TOKENS_IN_FUND as u64 {
            return false;
        }
        let n: usize = self.num_of_tokens as usize;
        let mut total: u128 = 0;
        let mut j: usize = 0;
        while j < n
            invariant
                j <= n <= NUM_TOKENS_IN_FUND,
                n == self.num_of_tokens,
                total == self.weight_total(j as int),
                total <= j * u64::MAX,
                forall|i: int| 0 <= i < j ==> self.current_comp_token[i] < MAX_TOKENS_IN_ASSET_POOL,
                self.tokens_distinct(j as int),
            decreases n - j,
        {
            if self.current_comp_token[j] >= MAX_TOKENS_IN_ASSET_POOL as u64 {
                return false;
            }
            let mut i: usize = 0;
            while i < j
                invariant
                    i <= j < n <= NUM_TOKENS_IN_FUND,
                    n == self.num_of_tokens,
                    forall|k: int|
                        0 <= k < i ==> self.current_comp_token[k] != self.current_comp_token[j as int],
                decreases j - i,
            {
                if self.current_comp_token[i] == self.current_comp_token[j] {
                    return false;
                }
                i = i + 1;
            }
            total = total + self.target_weight[j] as u128;
            j = j + 1;
        }
        total == self.weight_sum as u128
    }
}

impl OraclePrice {
    /// The price of a token before any oracle was read: all zero, not live.
    pub open spec fn is_unset(self) -> bool {
        self.sell_price == 0 && self.avg_price == 0 && self.buy_price == 0 && self.oracle_live
            == 0
    }
}

impl TokenSettings {
    /// Whether every field is zero.
    pub open spec fn is_zero(self) -> bool {
        &&& all_zero(self.token_mint@)
        &&& self.decimals == 0
        &&& all_zero(self.coingecko_id@)
        &&& all_zero(self.pda_token_account@)
        &&& self.oracle_type == 0
        &&& all_zero(self.oracle_account@)
        &&& self.oracle_index == 0
        &&& self.oracle_confidence_pct == 0
        &&& self.fixed_confidence_bps == 0
        &&& self.token_swap_fee_after_tw_bps == 0
        &&& self.token_swap_fee_before_tw_bps == 0
        &&& self.is_live == 0
        &&& self.lp_on == 0
        &&& self.use_curve_data == 0
        &&& all_zero(self.additional_data@)
        &&& self.oracle_price.is_unset()
    }

    /// Whether `data` holds this entry's decoded fields in the 199 bytes
    /// from `base`.
    pub open spec fn stored_in(self, data: Seq<u8>, base: int) -> bool {
        &&& self.token_mint@ == data.subrange(base, base + 32)
        &&& self.decimals == data[base + 32]
        &&& self.pda_token_account@ == data.subrange(base + 63, base + 95)
        &&& self.oracle_type == data[base + 95]
        &&& self.oracle_account@ == data.subrange(base + 96, base + 128)
        &&& self.oracle_index == data[base + 128]
        &&& self.oracle_confidence_pct == data[base + 129]
        &&& self.fixed_confidence_bps == data[base + 130]
        &&& self.token_swap_fee_after_tw_bps == data[base + 131]
        &&& self.token_swap_fee_before_tw_bps == data[base + 132]
        &&& self.is_live == data[base + 133]
        &&& self.lp_on == data[base + 134]
        &&& self.use_curve_data == data[base + 135]
        &&& self.additional_data@ == data.subrange(base + 136, base + 199)
    }

    /// Whether this entry has no identifier and no price: the two fields
    /// that no decoder fills.
    pub open spec fn is_fresh(self) -> bool {
        all_zero(self.coingecko_id@) && self.oracle_price.is_unset()
    }

    /// Whether this is the entry that `data` holds in the 199 bytes from
    /// `base`, with no identifier and no price yet.
    pub open spec fn decoded_from(self, data: Seq<u8>, base: int) -> bool {
        self.stored_in(data, base) && self.is_fresh()
    }

    /// The entry with every field zero.
    pub fn zero() -> (r: TokenSettings)
        ensures
            r.is_zero(),
    {
        TokenSettings {
            token_mint: [0u8; 32],
            decimals: 0,
            coingecko_id: [0u8; 30],
            pda_token_account: [0u8; 32],
            oracle_type: 0,
            oracle_account: [0u8; 32],
            oracle_index: 0,
            oracle_confidence_pct: 0,
            fixed_confidence_bps: 0,
            token_swap_fee_after_tw_bps: 0,
            token_swap_fee_before_tw_bps: 0,
            is_live: 0,
            lp_on: 0,
            use_curve_data: 0,
            additional_data: [0u8; 63],
            oracle_price: OraclePrice { sell_price: 0, avg_price: 0, buy_price: 0, oracle_live: 0 },
        }
    }

    /// Decodes the registry entry in the 199 bytes from `base`.
    pub fn decode(data: &[u8], base: usize) -> (r: TokenSettings)
        requires
            base + TOKEN_SETTINGS_SIZE <= data.len(),
        ensures
            r.decoded_from(data@, base as int),
    {
        TokenSettings {
            token_mint: read_array::<32>(data, base),
            decimals: data[base + 32],
            coingecko_id: [0u8; 30],
            pda_token_account: read_array::<32>(data, base + 63),
            oracle_type: data[base + 95],
            oracle_account: read_array::<32>(data, base + 96),
            oracle_index: data[base + 128],
            oracle_confidence_pct: data[base + 129],
            fixed_confidence_bps: data[base + 130],
            token_swap_fee_after_tw_bps: data[base + 131],
            token_swap_fee_before_tw_bps: data[base + 132],
            is_live: data[base + 133],
            lp_on: data[base + 134],
            use_curve_data: data[base + 135],
            additional_data: read_array::<63>(data, base + 136),
            oracle_price: OraclePrice { sell_price: 0, avg_price: 0, buy_price: 0, oracle_live: 0 },
        }
    }
}

impl TokenList {
    /// Whether this is the registry that the account bytes `data` hold:
    /// the entries that the count covers are decoded, the others zero.
    pub open spec fn decoded_from(self, data: Seq<u8>) -> bool {
        &&& self.num_tokens == le_u64_spec(data, 8)
        &&& forall|i: int|
            0 <= i < MAX_TOKENS_IN_ASSET_POOL ==> if i < self.num_tokens {
                (#[trigger] self.list[i]).decoded_from(data, 16 + TOKEN_SETTINGS_SIZE * i)
            } else {
                self.list[i].is_zero()
            }
    }

    /// Decodes the token registry account. The length is the only thing
    /// that can be wrong with it: a count above the registry's capacity
    /// is kept as it is, and all the entries are decoded.
    pub fn load(account_data: &[u8]) -> (r: Result<TokenList, Error>)
        ensures
            account_data.len() == TOKEN_LIST_ACCOUNT_SIZE ==> r is Ok && r->Ok_0.decoded_from(
                account_data@,
            ),
            account_data.len() != TOKEN_LIST_ACCOUNT_SIZE ==> r == Err::<TokenList, Error>(
                Error::WrongAccountSize {
                    what: AccountKind::TokenList,
                    expected: TOKEN_LIST_ACCOUNT_SIZE,
                    got: account_data.len(),
                },
            ),
    {
        if account_data.len() != TOKEN_LIST_ACCOUNT_SIZE {
            return Err(
                Error::WrongAccountSize {
                    what: AccountKind::TokenList,
                    expected: TOKEN_LIST_ACCOUNT_SIZE,
                    got: account_data.len(),
                },
            );
        }
        let num_tokens: u64 = read_u64(account_data, 8);
        let mut list = [TokenSettings::zero(); MAX_TOKENS_IN_ASSET_POOL];
        let mut i: usize = 0;
        while i < MAX_TOKENS_IN_ASSET_POOL && (i as u64) < num_tokens
            invariant
                i <= MAX_TOKENS_IN_ASSET_POOL,
                i <= num_tokens,
                account_data.len() == TOKEN_LIST_ACCOUNT_SIZE,
                forall|k: int|
                    0 <= k < i ==> (#[trigger] list[k]).decoded_from(
                        account_data@,
                        16 + TOKEN_SETTINGS_SIZE * k,
                    ),
                forall|k: int| i <= k < MAX_TOKENS_IN_ASSET_POOL ==> (#[trigger] list[k]).is_zero(),
            decreases MAX_TOKENS_IN_ASSET_POOL - i,
        {
            list[i] = TokenSettings::decode(account_data, 16 + i * TOKEN_SETTINGS_SIZE);
            i = i + 1;
        }
        Ok(TokenList { num_tokens, list })
    }
}

impl TokenPriceData {
    /// Whether every point is zero.
    pub open spec fn is_zero(self) -> bool {
        forall|j: int|
            #![trigger self.amount[j]]
            #![trigger self.price[j]]
            0 <= j < NUM_OF_POINTS_IN_CURVE_DATA ==> self.amount[j] == 0 && self.price[j] == 0
    }

    /// Whether this is the curve side that `data` holds in the 160 bytes
    /// from `base`: ten amounts, then ten prices.
    pub open spec fn decoded_from(self, data: Seq<u8>, base: int) -> bool {
        forall|j: int|
            #![trigger self.amount[j]]
            #![trigger self.price[j]]
            0 <= j < NUM_OF_POINTS_IN_CURVE_DATA ==> {
                &&& self.amount[j] == le_u64_spec(data, base + 8 * j)
                &&& self.price[j] == le_u64_spec(data, base + 80 + 8 * j)
            }
    }

    /// Decodes the curve side in the 160 bytes from `base`.
    pub fn decode(data: &[u8], base: usize) -> (r: TokenPriceData)
        requires
            base + TOKEN_PRICE_DATA_SIZE <= data.len(),
        ensures
            r.decoded_from(data@, base as int),
    {
        let mut amount = [0u64; NUM_OF_POINTS_IN_CURVE_DATA];
        let mut price = [0u64; NUM_OF_POINTS_IN_CURVE_DATA];
        let mut j: usize = 0;
        while j < NUM_OF_POINTS_IN_CURVE_DATA
            invariant
                j <= NUM_OF_POINTS_IN_CURVE_DATA,
                base + TOKEN_PRICE_DATA_SIZE <= data.len(),
                forall|k: int|
                    0 <= k < j ==> {
                        &&& amount[k] == le_u64_spec(data@, base + 8 * k)
                        &&& price[k] == le_u64_spec(data@, base + 80 + 8 * k)
                    },
            decreases NUM_OF_POINTS_IN_CURVE_DATA - j,
        {
            amount[j] = read_u64(data, base + j * 8);
            price[j] = read_u64(data, base + 80 + j * 8);
            j = j + 1;
        }
        TokenPriceData { amount, price }
    }
}

impl CurveData {
    /// Whether every point of every curve is zero.
    pub open spec fn is_zero(self) -> bool {
        forall|i: int|
            #![trigger self.buy[i]]
            #![trigger self.sell[i]]
            0 <= i < MAX_TOKENS_IN_ASSET_POOL ==> self.buy[i].is_zero() && self.sell[i].is_zero()
    }

    /// Whether this is the curve table that the account bytes `data`
    /// hold: the buy sides from byte 8, the sell sides from byte 32008.
    pub open spec fn decoded_from(self, data: Seq<u8>) -> bool {
        forall|i: int|
            #![trigger self.buy[i]]
            #![trigger self.sell[i]]
            0 <= i < MAX_TOKENS_IN_ASSET_POOL ==> {
                &&& self.buy[i].decoded_from(data, CURVE_BUY_OFFSET + TOKEN_PRICE_DATA_SIZE * i)
                &&& self.sell[i].decoded_from(data, CURVE_SELL_OFFSET + TOKEN_PRICE_DATA_SIZE * i)
            }
    }

    /// Decodes the curve table account. The length is the only thing
    /// that can be wrong with it.
    pub fn load(account_data: &[u8]) -> (r: Result<CurveData, Error>)
        ensures
            account_data.len() == CURVE_DATA_ACCOUNT_SIZE ==> r is Ok && r->Ok_0.decoded_from(
                account_data@,
            ),
            account_data.len() != CURVE_DATA_ACCOUNT_SIZE ==> r == Err::<CurveData, Error>(
                Error::WrongAccountSize {
                    what: AccountKind::CurveData,
                    expected: CURVE_DATA_ACCOUNT_SIZE,
                    got: account_data.len(),
                },
            ),
    {
        if account_data.len() != CURVE_DATA_ACCOUNT_SIZE {
            return Err(
                Error::WrongAccountSize {
                    what: AccountKind::CurveData,
                    expected: CURVE_DATA_ACCOUNT_SIZE,
                    got: account_data.len(),
                },
            );
        }
        let mut curves = CurveData::empty();
        let mut i: usize = 0;
        while i < MAX_TOKENS_IN_ASSET_POOL
            invariant
                i <= MAX_TOKENS_IN_ASSET_POOL,
                account_data.len() == CURVE_DATA_ACCOUNT_SIZE,
                forall|k: int|
                    #![trigger curves.buy[k]]
                    #![trigger curves.sell[k]]
                    0 <= k < i ==> {
                        &&& curves.buy[k].decoded_from(
                            account_data@,
                            CURVE_BUY_OFFSET + TOKEN_PRICE_DATA_SIZE * k,
                        )
                        &&& curves.sell[k].decoded_from(
                            account_data@,
                            CURVE_SELL_OFFSET + TOKEN_PRICE_DATA_SIZE * k,
                        )
                    },
            decreases MAX_TOKENS_IN_ASSET_POOL - i,
        {
            curves.buy[i] = TokenPriceData::decode(
                account_data,
                CURVE_BUY_OFFSET + i * TOKEN_PRICE_DATA_SIZE,
            );
            curves.sell[i] = TokenPriceData::decode(
                account_data,
                CURVE_SELL_OFFSET + i * TOKEN_PRICE_DATA_SIZE,
            );
            i = i + 1;
        }
        Ok(curves)
    }

    /// The curve table with every point zero.
    pub fn empty() -> (r: CurveData)
        ensures
            r.is_zero(),
    {
        let zero = TokenPriceData {
            amount: [0u64; NUM_OF_POINTS_IN_CURVE_DATA],
            price: [0u64; NUM_OF_POINTS_IN_CURVE_DATA],
        };
        CurveData { buy: [zero; MAX_TOKENS_IN_ASSET_POOL], sell: [zero; MAX_TOKENS_IN_ASSET_POOL] }
    }
}

} // verus!
