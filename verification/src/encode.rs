//! Encoders of the account records, and the round trip through the
//! decoders.

use vstd::prelude::*;
use crate::accounts::{
    CurveData, FundState, TokenList, TokenPriceData, TokenSettings, CURVE_BUY_OFFSET,
    CURVE_DATA_ACCOUNT_SIZE, CURVE_SELL_OFFSET, FUND_STATE_ACCOUNT_SIZE, MAX_TOKENS_IN_ASSET_POOL,
    NUM_OF_POINTS_IN_CURVE_DATA, NUM_TOKENS_IN_FUND, TOKEN_LIST_ACCOUNT_SIZE,
    TOKEN_PRICE_DATA_SIZE, TOKEN_SETTINGS_SIZE,
};
use crate::bytes::{le_u64_spec, same_outside, write_array, write_u64};

verus! {

/// Whether byte `i` of a fund state account belongs to a decoded field.
pub open spec fn fund_state_field_byte(i: int) -> bool {
    ||| 16 <= i < 48
    ||| 128 <= i < 160
    ||| 168 <= i < 496
    ||| 656 <= i < 824
    ||| 1024 <= i < 1032
    ||| 1040 <= i < 1048
    ||| 9432 <= i < 9440
}

impl FundState {
    /// Encodes the fund state as an account: every decoded field at its
    /// offset, every other byte zero.
    pub fn to_bytes(&self) -> (out: Vec<u8>)
        ensures
            out.len() == FUND_STATE_ACCOUNT_SIZE,
            self.decoded_from(out@),
            forall|i: int|
                0 <= i < FUND_STATE_ACCOUNT_SIZE && !fund_state_field_byte(i) ==> out[i] == 0,
    {
        let mut buf: Vec<u8> = vec![0u8; FUND_STATE_ACCOUNT_SIZE];
        let mut i: usize = 0;
        while i < NUM_TOKENS_IN_FUND
            invariant
                i <= NUM_TOKENS_IN_FUND,
                buf.len() == FUND_STATE_ACCOUNT_SIZE,
                forall|k: int|
                    0 <= k < i ==> {
                        &&& self.current_comp_token[k] == le_u64_spec(buf@, 176 + 8 * k)
                        &&& self.current_comp_amount[k] == le_u64_spec(buf@, 336 + 8 * k)
                        &&& self.target_weight[k] == le_u64_spec(buf@, 656 + 8 * k)
                    },
                forall|j: int|
                    0 <= j < FUND_STATE_ACCOUNT_SIZE && !(176 <= j < 496) && !(656 <= j < 816)
                        ==> buf[j] == 0,
            decreases NUM_TOKENS_IN_FUND - i,
        {
            write_u64(&mut buf, 176 + i * 8, self.current_comp_token[i]);
            write_u64(&mut buf, 336 + i * 8, self.current_comp_amount[i]);
            write_u64(&mut buf, 656 + i * 8, self.target_weight[i]);
            i = i + 1;
        }
        write_array::<32>(&mut buf, 16, &self.manager);
        write_array::<32>(&mut buf, 128, &self.host_pubkey);
        write_u64(&mut buf, 168, self.num_of_tokens);
        write_u64(&mut buf, 816, self.weight_sum);
        write_u64(&mut buf, 1024, self.rebalance_threshold);
        write_u64(&mut buf, 1040, self.lp_offset_threshold);
        write_u64(&mut buf, 9432, self.lp_disabled);
        assert(self.manager@ =~= buf@.subrange(16, 48));
        assert(self.host_pubkey@ =~= buf@.subrange(128, 160));
        buf
    }
}

/// The fund state decoded from the bytes that a fund state was encoded
/// to is that fund state.
pub proof fn lemma_fund_state_round_trip(record: FundState, data: Seq<u8>, decoded: FundState)
    requires
        record.decoded_from(data),
        decoded.decoded_from(data),
    ensures
        decoded == record,
{
    assert(decoded.manager =~= record.manager);
    assert(decoded.host_pubkey =~= record.host_pubkey);
    assert(decoded.current_comp_token =~= record.current_comp_token);
    assert(decoded.current_comp_amount =~= record.current_comp_amount);
    assert(decoded.target_weight =~= record.target_weight);
}

impl TokenSettings {
    /// Writes the entry into the 199 bytes from `base`: every decoded
    /// field at its offset, and the identifier in the thirty bytes that
    /// no decoder reads. The price is not part of the account.
    pub fn encode_into(&self, buf: &mut Vec<u8>, base: usize)
        requires
            base + TOKEN_SETTINGS_SIZE <= old(buf).len(),
        ensures
            same_outside(old(buf)@, final(buf)@, base as int, TOKEN_SETTINGS_SIZE as int),
            self.stored_in(final(buf)@, base as int),
            final(buf)@.subrange(base + 33, base + 63) == self.coingecko_id@,
    {
        write_array::<32>(buf, base, &self.token_mint);
        buf[base + 32] = self.decimals;
        write_array::<30>(buf, base + 33, &self.coingecko_id);
        write_array::<32>(buf, base + 63, &self.pda_token_account);
        buf[base + 95] = self.oracle_type;
        write_array::<32>(buf, base + 96, &self.oracle_account);
        buf[base + 128] = self.oracle_index;
        buf[base + 129] = self.oracle_confidence_pct;
        buf[base + 130] = self.fixed_confidence_bps;
        buf[base + 131] = self.token_swap_fee_after_tw_bps;
        buf[base + 132] = self.token_swap_fee_before_tw_bps;
        buf[base + 133] = self.is_live;
        buf[base + 134] = self.lp_on;
        buf[base + 135] = self.use_curve_data;
        write_array::<63>(buf, base + 136, &self.additional_data);
        assert(self.token_mint@ =~= buf@.subrange(base as int, base + 32));
        assert(self.coingecko_id@ =~= buf@.subrange(base + 33, base + 63));
        assert(self.pda_token_account@ =~= buf@.subrange(base + 63, base + 95));
        assert(self.oracle_account@ =~= buf@.subrange(base + 96, base + 128));
        assert(self.additional_data@ =~= buf@.subrange(base + 136, base + 199));
    }
}

/// Two entries decoded from the same bytes are the same entry.
pub proof fn lemma_token_settings_decoded_once(
    a: TokenSettings,
    b: TokenSettings,
    data: Seq<u8>,
    base: int,
)
    requires
        a.decoded_from(data, base),
        b.decoded_from(data, base),
    ensures
        a == b,
{
    assert(a.token_mint =~= b.token_mint);
    assert(a.coingecko_id =~= b.coingecko_id);
    assert(a.pda_token_account =~= b.pda_token_account);
    assert(a.oracle_account =~= b.oracle_account);
    assert(a.additional_data =~= b.additional_data);
}

/// There is one entry with every field zero.
pub proof fn lemma_token_settings_zero_once(a: TokenSettings, b: TokenSettings)
    requires
        a.is_zero(),
        b.is_zero(),
    ensures
        a == b,
{
    assert(a.token_mint =~= b.token_mint);
    assert(a.coingecko_id =~= b.coingecko_id);
    assert(a.pda_token_account =~= b.pda_token_account);
    assert(a.oracle_account =~= b.oracle_account);
    assert(a.additional_data =~= b.additional_data);
}

/// Whether byte `i` of a token registry account belongs to the count or
/// to an entry.
pub open spec fn token_list_field_byte(i: int) -> bool {
    8 <= i < 16 + MAX_TOKENS_IN_ASSET_POOL * TOKEN_SETTINGS_SIZE
}

impl TokenList {
    /// Whether `data` holds the count and all hundred entries of this
    /// registry, identifiers included.
    pub open spec fn stored_in(self, data: Seq<u8>) -> bool {
        &&& self.num_tokens == le_u64_spec(data, 8)
        &&& forall|i: int|
            0 <= i < MAX_TOKENS_IN_ASSET_POOL ==> {
                &&& (#[trigger] self.list[i]).stored_in(data, 16 + TOKEN_SETTINGS_SIZE * i)
                &&& self.list[i].coingecko_id@ == data.subrange(
                    16 + TOKEN_SETTINGS_SIZE * i + 33,
                    16 + TOKEN_SETTINGS_SIZE * i + 63,
                )
            }
    }

    /// Whether this registry is one that a decoder can give: the entries
    /// that the count covers have no identifier and no price, the others
    /// are zero.
    pub open spec fn is_canonical(self) -> bool {
        forall|i: int|
            0 <= i < MAX_TOKENS_IN_ASSET_POOL ==> if i < self.num_tokens {
                (#[trigger] self.list[i]).is_fresh()
            } else {
                self.list[i].is_zero()
            }
    }

    /// Encodes the registry as an account: the count and all hundred
    /// entries at their offsets, every other byte zero.
    pub fn to_bytes(&self) -> (out: Vec<u8>)
        ensures
            out.len() == TOKEN_LIST_ACCOUNT_SIZE,
            self.stored_in(out@),
            forall|i: int|
                0 <= i < TOKEN_LIST_ACCOUNT_SIZE && !token_list_field_byte(i) ==> out[i] == 0,
    {
        let mut buf: Vec<u8> = vec![0u8; TOKEN_LIST_ACCOUNT_SIZE];
        write_u64(&mut buf, 8, self.num_tokens);
        let mut i: usize = 0;
        while i < MAX_TOKENS_IN_ASSET_POOL
            invariant
                i <= MAX_TOKENS_IN_ASSET_POOL,
                buf.len() == TOKEN_LIST_ACCOUNT_SIZE,
                self.num_tokens == le_u64_spec(buf@, 8),
                forall|j: int|
                    0 <= j < TOKEN_LIST_ACCOUNT_SIZE && !token_list_field_byte(j) ==> buf[j] == 0,
                forall|k: int|
                    0 <= k < i ==> {
                        &&& (#[trigger] self.list[k]).stored_in(buf@, 16 + TOKEN_SETTINGS_SIZE * k)
                        &&& self.list[k].coingecko_id@ == buf@.subrange(
                            16 + TOKEN_SETTINGS_SIZE * k + 33,
                            16 + TOKEN_SETTINGS_SIZE * k + 63,
                        )
                    },
            decreases MAX_TOKENS_IN_ASSET_POOL - i,
        {
            let ghost before = buf@;
            self.list[i].encode_into(&mut buf, 16 + i * TOKEN_SETTINGS_SIZE);
            assert forall|k: int| 0 <= k < i implies {
                &&& (#[trigger] self.list[k]).stored_in(buf@, 16 + TOKEN_SETTINGS_SIZE * k)
                &&& self.list[k].coingecko_id@ == buf@.subrange(
                    16 + TOKEN_SETTINGS_SIZE * k + 33,
                    16 + TOKEN_SETTINGS_SIZE * k + 63,
                )
            } by {
                lemma_entry_kept(self.list[k], before, buf@, 16 + TOKEN_SETTINGS_SIZE * k);
            }
            i = i + 1;
        }
        buf
    }
}

/// An entry stays stored where it is when none of its bytes change.
pub proof fn lemma_entry_kept(entry: TokenSettings, before: Seq<u8>, after: Seq<u8>, base: int)
    requires
        0 <= base,
        base + TOKEN_SETTINGS_SIZE <= before.len(),
        after.len() == before.len(),
        forall|j: int| base <= j < base + TOKEN_SETTINGS_SIZE ==> after[j] == before[j],
        entry.stored_in(before, base),
        entry.coingecko_id@ == before.subrange(base + 33, base + 63),
    ensures
        entry.stored_in(after, base),
        entry.coingecko_id@ == after.subrange(base + 33, base + 63),
{
    assert(after.subrange(base, base + 32) =~= before.subrange(base, base + 32));
    assert(after.subrange(base + 33, base + 63) =~= before.subrange(base + 33, base + 63));
    assert(after.subrange(base + 63, base + 95) =~= before.subrange(base + 63, base + 95));
    assert(after.subrange(base + 96, base + 128) =~= before.subrange(base + 96, base + 128));
    assert(after.subrange(base + 136, base + 199) =~= before.subrange(base + 136, base + 199));
}

/// The registry decoded from the bytes that a canonical registry was
/// encoded to is that registry.
pub proof fn lemma_token_list_round_trip(record: TokenList, data: Seq<u8>, decoded: TokenList)
    requires
        record.is_canonical(),
        record.stored_in(data),
        decoded.decoded_from(data),
    ensures
        decoded == record,
{
    assert forall|i: int| 0 <= i < MAX_TOKENS_IN_ASSET_POOL implies decoded.list[i]
        == record.list[i] by {
        if i < record.num_tokens {
            assert(record.list[i].is_fresh());
            lemma_token_settings_decoded_once(
                decoded.list[i],
                record.list[i],
                data,
                16 + TOKEN_SETTINGS_SIZE * i,
            );
        } else {
            assert(record.list[i].is_zero());
            lemma_token_settings_zero_once(decoded.list[i], record.list[i]);
        }
    }
    assert(decoded.list =~= record.list);
}

impl TokenPriceData {
    /// Writes the curve side into the 160 bytes from `base`.
    pub fn encode_into(&self, buf: &mut Vec<u8>, base: usize)
        requires
            base + TOKEN_PRICE_DATA_SIZE <= old(buf).len(),
        ensures
            same_outside(old(buf)@, final(buf)@, base as int, TOKEN_PRICE_DATA_SIZE as int),
            self.decoded_from(final(buf)@, base as int),
    {
        let mut j: usize = 0;
        while j < NUM_OF_POINTS_IN_CURVE_DATA
            invariant
                j <= NUM_OF_POINTS_IN_CURVE_DATA,
                base + TOKEN_PRICE_DATA_SIZE <= buf.len(),
                same_outside(old(buf)@, buf@, base as int, TOKEN_PRICE_DATA_SIZE as int),
                forall|k: int|
                    0 <= k < j ==> {
                        &&& self.amount[k] == le_u64_spec(buf@, base + 8 * k)
                        &&& self.price[k] == le_u64_spec(buf@, base + 80 + 8 * k)
                    },
            decreases NUM_OF_POINTS_IN_CURVE_DATA - j,
        {
            write_u64(buf, base + j * 8, self.amount[j]);
            write_u64(buf, base + 80 + j * 8, self.price[j]);
            j = j + 1;
        }
    }
}

/// Two curve sides decoded from the same bytes are the same curve side.
pub proof fn lemma_token_price_data_decoded_once(
    a: TokenPriceData,
    b: TokenPriceData,
    data: Seq<u8>,
    base: int,
)
    requires
        a.decoded_from(data, base),
        b.decoded_from(data, base),
    ensures
        a == b,
{
    assert(a.amount =~= b.amount);
    assert(a.price =~= b.price);
}

/// A curve side stays decodable where it is when none of its bytes
/// change.
pub proof fn lemma_curve_side_kept(side: TokenPriceData, before: Seq<u8>, after: Seq<u8>, base: int)
    requires
        0 <= base,
        base + TOKEN_PRICE_DATA_SIZE <= before.len(),
        after.len() == before.len(),
        forall|j: int| base <= j < base + TOKEN_PRICE_DATA_SIZE ==> after[j] == before[j],
        side.decoded_from(before, base),
    ensures
        side.decoded_from(after, base),
{
}

/// Whether byte `i` of a curve table account belongs to a curve side.
pub open spec fn curve_data_field_byte(i: int) -> bool {
    ||| CURVE_BUY_OFFSET <= i < CURVE_BUY_OFFSET + MAX_TOKENS_IN_ASSET_POOL * TOKEN_PRICE_DATA_SIZE
    ||| CURVE_SELL_OFFSET <= i < CURVE_SELL_OFFSET + MAX_TOKENS_IN_ASSET_POOL
        * TOKEN_PRICE_DATA_SIZE
}

impl CurveData {
    /// Encodes the curve table as an account: every curve side at its
    /// offset, every other byte zero.
    pub fn to_bytes(&self) -> (out: Vec<u8>)
        ensures
            out.len() == CURVE_DATA_ACCOUNT_SIZE,
            self.decoded_from(out@),
            forall|i: int|
                0 <= i < CURVE_DATA_ACCOUNT_SIZE && !curve_data_field_byte(i) ==> out[i] == 0,
    {
        let mut buf: Vec<u8> = vec![0u8; CURVE_DATA_ACCOUNT_SIZE];
        let mut i: usize = 0;
        while i < MAX_TOKENS_IN_ASSET_POOL
            invariant
                i <= MAX_TOKENS_IN_ASSET_POOL,
                buf.len() == CURVE_DATA_ACCOUNT_SIZE,
                forall|j: int|
                    0 <= j < CURVE_DATA_ACCOUNT_SIZE && !curve_data_field_byte(j) ==> buf[j] == 0,
                forall|k: int|
                    #![trigger self.buy[k]]
                    #![trigger self.sell[k]]
                    0 <= k < i ==> {
                        &&& self.buy[k].decoded_from(
                            buf@,
                            CURVE_BUY_OFFSET + TOKEN_PRICE_DATA_SIZE * k,
                        )
                        &&& self.sell[k].decoded_from(
                            buf@,
                            CURVE_SELL_OFFSET + TOKEN_PRICE_DATA_SIZE * k,
                        )
                    },
            decreases MAX_TOKENS_IN_ASSET_POOL - i,
        {
            let ghost before = buf@;
            self.buy[i].encode_into(&mut buf, CURVE_BUY_OFFSET + i * TOKEN_PRICE_DATA_SIZE);
            let ghost between = buf@;
            self.sell[i].encode_into(&mut buf, CURVE_SELL_OFFSET + i * TOKEN_PRICE_DATA_SIZE);
            proof {
                lemma_curve_side_kept(
                    self.buy[i as int],
                    between,
                    buf@,
                    CURVE_BUY_OFFSET + TOKEN_PRICE_DATA_SIZE * i,
                );
            }
            assert forall|k: int|
                #![trigger self.buy[k]]
                #![trigger self.sell[k]]
                0 <= k < i implies {
                &&& self.buy[k].decoded_from(buf@, CURVE_BUY_OFFSET + TOKEN_PRICE_DATA_SIZE * k)
                &&& self.sell[k].decoded_from(buf@, CURVE_SELL_OFFSET + TOKEN_PRICE_DATA_SIZE * k)
            } by {
                lemma_curve_side_kept(
                    self.buy[k],
                    before,
                    between,
                    CURVE_BUY_OFFSET + TOKEN_PRICE_DATA_SIZE * k,
                );
                lemma_curve_side_kept(
                    self.buy[k],
                    between,
                    buf@,
                    CURVE_BUY_OFFSET + TOKEN_PRICE_DATA_SIZE * k,
                );
                lemma_curve_side_kept(
                    self.sell[k],
                    before,
                    between,
                    CURVE_SELL_OFFSET + TOKEN_PRICE_DATA_SIZE * k,
                );
                lemma_curve_side_kept(
                    self.sell[k],
                    between,
                    buf@,
                    CURVE_SELL_OFFSET + TOKEN_PRICE_DATA_SIZE * k,
                );
            }
            i = i + 1;
        }
        buf
    }
}

/// The curve table decoded from the bytes that a curve table was encoded
/// to is that curve table.
pub proof fn lemma_curve_data_round_trip(record: CurveData, data: Seq<u8>, decoded: CurveData)
    requires
        record.decoded_from(data),
        decoded.decoded_from(data),
    ensures
        decoded == record,
{
    assert forall|i: int| 0 <= i < MAX_TOKENS_IN_ASSET_POOL implies decoded.buy[i] == record.buy[i]
        && decoded.sell[i] == record.sell[i] by {
        lemma_token_price_data_decoded_once(
            decoded.buy[i],
            record.buy[i],
            data,
            CURVE_BUY_OFFSET + TOKEN_PRICE_DATA_SIZE * i,
        );
        lemma_token_price_data_decoded_once(
            decoded.sell[i],
            record.sell[i],
            data,
            CURVE_SELL_OFFSET + TOKEN_PRICE_DATA_SIZE * i,
        );
    }
    assert(decoded.buy =~= record.buy);
    assert(decoded.sell =~= record.sell);
}

} // verus!
