//! Oracle normalisation: two oracle account formats are collapsed into
//! one price triple with a liveness flag.
//!
//! A feed oracle publishes a signed price with an exponent, a
//! confidence interval, a status and the slot it was valid at. A table
//! oracle publishes fifty mantissas, each with the time it was written.
//! Both end in the same way: the confidence and a fixed extra margin are
//! taken off the average for the sell price and put on it for the buy
//! price. The sell price stops at zero and the buy price at `u64::MAX`.

use vstd::prelude::*;
use crate::accounts::{Clock, OraclePrice, TokenSettings, ORACLE_ACCOUNT_SIZE};
use crate::bytes::{as_signed32, as_signed64, le_u32_spec, le_u64_spec, read_u32, read_u64};
use crate::error::{AccountKind, Error};
use crate::math::{lemma_mul_div_range, mul_div, mul_div_spec, pow10, pow10_spec, ONE_USD};

verus! {

/// `oracle_type` of a feed oracle.
pub const ORACLE_TYPE_FEED: u8 = 0;

/// `oracle_type` of a table oracle.
pub const ORACLE_TYPE_TABLE: u8 = 1;

/// Number of slots after which a feed price is stale.
pub const FEED_MAX_SLOT_AGE: u64 = 50;

/// `status` of a feed that is trading.
pub const FEED_STATUS_TRADING: u32 = 1;

/// Number of entries of a table oracle.
pub const TABLE_ENTRIES: u8 = 50;

/// Age in seconds after which a table entry is no longer live.
pub const TABLE_MAX_AGE: i64 = 40;

/// Confidence, in basis points, of a table entry older than 30 seconds.
pub const TABLE_STALE_CONFIDENCE_BPS: u64 = 9900;

/// The price of a token whose oracle cannot be read: all zero, not
/// live. It is the one price for which `is_unset` holds.
pub open spec fn offline_price() -> OraclePrice {
    OraclePrice { sell_price: 0, avg_price: 0, buy_price: 0, oracle_live: 0 }
}

/// Divisor that turns a feed's integer price into whole units: `10^-expo`
/// for an exponent from -19 to -1. Any other exponent has none, which
/// is written as zero.
pub open spec fn feed_scale(expo: int) -> int {
    if expo < 0 {
        pow10_spec(-expo)
    } else {
        0
    }
}

/// Whether a feed with these readings is live at `slot`.
pub open spec fn feed_is_live(
    expo: int,
    valid_slot: int,
    price_bits: int,
    conf: int,
    status: int,
    slot: int,
) -> bool {
    &&& slot < valid_slot + FEED_MAX_SLOT_AGE
    &&& status == FEED_STATUS_TRADING
    &&& price_bits < 0x8000_0000_0000_0000
    &&& conf * 10 <= price_bits
    &&& feed_scale(expo) != 0
}

/// Sell, average and buy price from an average and a confidence.
pub open spec fn finish_price(avg: int, base_confidence: int, settings: TokenSettings, live: bool) -> OraclePrice {
    let additional = mul_div_spec(avg, settings.fixed_confidence_bps as int, 10000);
    let margin = base_confidence + additional;
    OraclePrice {
        sell_price: if margin > avg {
            0
        } else {
            (avg - margin) as u64
        },
        avg_price: avg as u64,
        buy_price: if avg + margin > u64::MAX {
            u64::MAX
        } else {
            (avg + margin) as u64
        },
        oracle_live: if live {
            1
        } else {
            0
        },
    }
}

/// Price that a feed oracle account gives at `clock`. A negative price
/// enters the average as its 64-bit pattern, and the feed is not live.
pub open spec fn feed_price(data: Seq<u8>, settings: TokenSettings, clock: Clock) -> OraclePrice {
    let expo = as_signed32(le_u32_spec(data, 20));
    let valid_slot = le_u64_spec(data, 40);
    let price_bits = le_u64_spec(data, 208);
    let conf = le_u64_spec(data, 216);
    let status = le_u32_spec(data, 224);
    let scale = feed_scale(expo);
    let avg = mul_div_spec(price_bits, ONE_USD as int, scale);
    let confidence = mul_div_spec(conf, ONE_USD as int, scale);
    let base = mul_div_spec(confidence, settings.oracle_confidence_pct as int, 100);
    finish_price(
        avg,
        base,
        settings,
        feed_is_live(expo, valid_slot, price_bits, conf, status, clock.slot as int),
    )
}

/// Confidence of a table entry, in basis points, by its age in seconds.
pub open spec fn table_confidence_bps(age: int, settings: TokenSettings) -> int {
    if age <= 10 {
        settings.oracle_confidence_pct as int
    } else if age <= 30 {
        settings.oracle_confidence_pct + 2 * (age - 10)
    } else {
        TABLE_STALE_CONFIDENCE_BPS as int
    }
}

/// Price that a table oracle account gives at `clock`. An index outside
/// the table gives the offline price.
pub open spec fn table_price(data: Seq<u8>, settings: TokenSettings, clock: Clock) -> OraclePrice {
    if settings.oracle_index >= TABLE_ENTRIES {
        offline_price()
    } else {
        let mantissa = le_u64_spec(data, 9 + settings.oracle_index * 8);
        let write_timestamp = le_u64_spec(data, 409 + settings.oracle_index * 8);
        let age = clock.unix_timestamp - write_timestamp;
        let avg = mul_div_spec(mantissa, 10000 - settings.oracle_confidence_pct, 10000);
        let base = mul_div_spec(avg, table_confidence_bps(age, settings), 10000);
        finish_price(avg, base, settings, age <= TABLE_MAX_AGE)
    }
}

/// What normalising an oracle account gives: an error for a feed or
/// table account of the wrong length, the offline price for an unknown
/// oracle type.
pub open spec fn normalized_price(data: Seq<u8>, settings: TokenSettings, clock: Clock) -> Result<
    OraclePrice,
    Error,
> {
    if settings.oracle_type == ORACLE_TYPE_FEED {
        if data.len() != ORACLE_ACCOUNT_SIZE[0] {
            Err(
                Error::WrongAccountSize {
                    what: AccountKind::Oracle,
                    expected: ORACLE_ACCOUNT_SIZE[0],
                    got: data.len() as usize,
                },
            )
        } else {
            Ok(feed_price(data, settings, clock))
        }
    } else if settings.oracle_type == ORACLE_TYPE_TABLE {
        if data.len() != ORACLE_ACCOUNT_SIZE[1] {
            Err(
                Error::WrongAccountSize {
                    what: AccountKind::Oracle,
                    expected: ORACLE_ACCOUNT_SIZE[1],
                    got: data.len() as usize,
                },
            )
        } else {
            Ok(table_price(data, settings, clock))
        }
    } else {
        Ok(offline_price())
    }
}

/// A feed is not live if it is not trading, if its confidence interval
/// is wider than a tenth of its price, or if the clock is fifty slots or
/// more past the slot the price was valid at.
pub proof fn lemma_feed_offline(data: Seq<u8>, settings: TokenSettings, clock: Clock)
    requires
        le_u32_spec(data, 224) != FEED_STATUS_TRADING || le_u64_spec(data, 216) * 10 > as_signed64(
            le_u64_spec(data, 208),
        ) || clock.slot >= le_u64_spec(data, 40) + FEED_MAX_SLOT_AGE,
    ensures
        feed_price(data, settings, clock).oracle_live == 0,
{
}

/// A table entry older than forty seconds is not live. One older than
/// thirty seconds and not older than forty is live, with a confidence of
/// 9900 basis points.
pub proof fn lemma_table_liveness(data: Seq<u8>, settings: TokenSettings, clock: Clock)
    requires
        settings.oracle_index < TABLE_ENTRIES,
    ensures
        ({
            let age = clock.unix_timestamp - le_u64_spec(data, 409 + settings.oracle_index * 8);
            &&& age > 40 ==> table_price(data, settings, clock).oracle_live == 0
            &&& 30 < age <= 40 ==> table_price(data, settings, clock).oracle_live == 1
                && table_confidence_bps(age, settings) == 9900
        }),
{
}

/// A normalised price is ordered: the sell price is at most the
/// average, and the average at most the buy price.
pub proof fn lemma_normalized_price_ordered(data: Seq<u8>, settings: TokenSettings, clock: Clock)
    ensures
        normalized_price(data, settings, clock) matches Ok(p) ==> p.ordered(),
{
    let scale = feed_scale(as_signed32(le_u32_spec(data, 20)));
    let feed_avg = mul_div_spec(le_u64_spec(data, 208), ONE_USD as int, scale);
    let feed_confidence = mul_div_spec(le_u64_spec(data, 216), ONE_USD as int, scale);
    lemma_mul_div_range(le_u64_spec(data, 208), ONE_USD as int, scale);
    lemma_mul_div_range(feed_confidence, settings.oracle_confidence_pct as int, 100);
    lemma_mul_div_range(feed_avg, settings.fixed_confidence_bps as int, 10000);
    if settings.oracle_index < TABLE_ENTRIES {
        let mantissa = le_u64_spec(data, 9 + settings.oracle_index * 8);
        let age = clock.unix_timestamp - le_u64_spec(data, 409 + settings.oracle_index * 8);
        let table_avg = mul_div_spec(mantissa, 10000 - settings.oracle_confidence_pct, 10000);
        lemma_mul_div_range(mantissa, 10000 - settings.oracle_confidence_pct, 10000);
        lemma_mul_div_range(table_avg, table_confidence_bps(age, settings), 10000);
        lemma_mul_div_range(table_avg, settings.fixed_confidence_bps as int, 10000);
    }
}

impl OraclePrice {
    /// The sell price is at most the average, and the average at most the
    /// buy price.
    pub open spec fn ordered(self) -> bool {
        self.sell_price <= self.avg_price <= self.buy_price
    }

    /// Finishes a price from its average and confidence.
    fn finish(avg: u64, base_confidence: u64, token_settings: TokenSettings, live: bool) -> (r:
        OraclePrice)
        ensures
            r == finish_price(avg as int, base_confidence as int, token_settings, live),
            r.ordered(),
    {
        let additional: u64 = mul_div(avg, token_settings.fixed_confidence_bps as u64, 10000);
        let margin: u128 = base_confidence as u128 + additional as u128;
        OraclePrice {
            sell_price: if margin > avg as u128 {
                0
            } else {
                (avg as u128 - margin) as u64
            },
            avg_price: avg,
            buy_price: if avg as u128 + margin > u64::MAX as u128 {
                u64::MAX
            } else {
                (avg as u128 + margin) as u64
            },
            oracle_live: if live {
                1
            } else {
                0
            },
        }
    }

    /// Normalises the oracle account of a token at the given clock.
    ///
    /// Fails only on a feed or table account of the wrong length. A
    /// price that is returned is ordered, live or not.
    pub fn load(account_data: &[u8], token_settings: TokenSettings, clock: Clock) -> (r: Result<
        OraclePrice,
        Error,
    >)
        ensures
            r == normalized_price(account_data@, token_settings, clock),
            r matches Ok(p) ==> p.ordered(),
    {
        if token_settings.oracle_type == ORACLE_TYPE_FEED {
            if account_data.len() != ORACLE_ACCOUNT_SIZE[0] {
                return Err(
                    Error::WrongAccountSize {
                        what: AccountKind::Oracle,
                        expected: ORACLE_ACCOUNT_SIZE[0],
                        got: account_data.len(),
                    },
                );
            }
            let expo_bits: u32 = read_u32(account_data, 20);
            let valid_slot: u64 = read_u64(account_data, 40);
            let price_bits: u64 = read_u64(account_data, 208);
            let conf: u64 = read_u64(account_data, 216);
            let status: u32 = read_u32(account_data, 224);
            let scale: u64 = if expo_bits >= 0x8000_0000 {
                let digits: u32 = 0xFFFF_FFFF - expo_bits + 1;
                if digits > 19 {
                    0
                } else {
                    pow10(digits as u8)
                }
            } else {
                0
            };
            let live: bool = (clock.slot as u128) < valid_slot as u128 + FEED_MAX_SLOT_AGE as u128
                && status == FEED_STATUS_TRADING && price_bits < 0x8000_0000_0000_0000
                && conf as u128 * 10 <= price_bits as u128 && scale != 0;
            let avg: u64 = mul_div(price_bits, ONE_USD, scale);
            let confidence: u64 = mul_div(conf, ONE_USD, scale);
            let base: u64 = mul_div(confidence, token_settings.oracle_confidence_pct as u64, 100);
            Ok(Self::finish(avg, base, token_settings, live))
        } else if token_settings.oracle_type == ORACLE_TYPE_TABLE {
            if account_data.len() != ORACLE_ACCOUNT_SIZE[1] {
                return Err(
                    Error::WrongAccountSize {
                        what: AccountKind::Oracle,
                        expected: ORACLE_ACCOUNT_SIZE[1],
                        got: account_data.len(),
                    },
                );
            }
            if token_settings.oracle_index >= TABLE_ENTRIES {
                return Ok(
                    OraclePrice { sell_price: 0, avg_price: 0, buy_price: 0, oracle_live: 0 },
                );
            }
            let price_start: usize = token_settings.oracle_index as usize * 8 + 9;
            let mantissa: u64 = read_u64(account_data, price_start);
            let write_timestamp: u64 = read_u64(account_data, price_start + 400);
            let age: i128 = clock.unix_timestamp as i128 - write_timestamp as i128;
            let confidence_pct: u64 = token_settings.oracle_confidence_pct as u64;
            let time_based_confidence_bps: u64 = if age > 30 {
                TABLE_STALE_CONFIDENCE_BPS
            } else if age > 10 {
                confidence_pct + ((age - 10) * 2) as u64
            } else {
                confidence_pct
            };
            let avg: u64 = mul_div(mantissa, 10000 - confidence_pct, 10000);
            let base: u64 = mul_div(avg, time_based_confidence_bps, 10000);
            Ok(Self::finish(avg, base, token_settings, age <= TABLE_MAX_AGE as i128))
        } else {
            Ok(OraclePrice { sell_price: 0, avg_price: 0, buy_price: 0, oracle_live: 0 })
        }
    }
}

} // verus!
