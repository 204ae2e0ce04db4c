use symmetry_math::accounts::{
    CurveData, FundState, OraclePrice, TokenList, TokenPriceData, TokenSettings,
    CURVE_DATA_ACCOUNT_SIZE, FUND_STATE_ACCOUNT_SIZE, FUND_LP_DISABLED, LP_DISABLED,
    MAX_TOKENS_IN_ASSET_POOL, NUM_OF_POINTS_IN_CURVE_DATA, NUM_TOKENS_IN_FUND,
    ORACLE_ACCOUNT_SIZE, TOKEN_LIST_ACCOUNT_SIZE, USE_CURVE_DATA,
};
use symmetry_math::bytes::{read_array, read_u32, read_u64, write_array, write_u32, write_u64};
use symmetry_math::error::{AccountKind, Error};

fn put_u64(buf: &mut [u8], off: usize, v: u64) {
    buf[off..off + 8].copy_from_slice(&v.to_le_bytes());
}

fn same_settings(a: &TokenSettings, b: &TokenSettings) -> bool {
    a.token_mint == b.token_mint
        && a.decimals == b.decimals
        && a.coingecko_id == b.coingecko_id
        && a.pda_token_account == b.pda_token_account
        && a.oracle_type == b.oracle_type
        && a.oracle_account == b.oracle_account
        && a.oracle_index == b.oracle_index
        && a.oracle_confidence_pct == b.oracle_confidence_pct
        && a.fixed_confidence_bps == b.fixed_confidence_bps
        && a.token_swap_fee_after_tw_bps == b.token_swap_fee_after_tw_bps
        && a.token_swap_fee_before_tw_bps == b.token_swap_fee_before_tw_bps
        && a.is_live == b.is_live
        && a.lp_on == b.lp_on
        && a.use_curve_data == b.use_curve_data
        && a.additional_data == b.additional_data
        && a.oracle_price == b.oracle_price
}

fn is_zero_settings(a: &TokenSettings) -> bool {
    same_settings(a, &TokenSettings::zero())
}

fn sample_settings(seed: u8) -> TokenSettings {
    let mut s = TokenSettings::zero();
    s.token_mint = [seed; 32];
    s.token_mint[31] = 0xEE;
    s.decimals = seed % 10;
    s.pda_token_account = [seed.wrapping_add(1); 32];
    s.oracle_type = seed % 2;
    s.oracle_account = [seed.wrapping_add(2); 32];
    s.oracle_index = seed.wrapping_mul(3);
    s.oracle_confidence_pct = seed.wrapping_mul(5);
    s.fixed_confidence_bps = seed.wrapping_mul(7);
    s.token_swap_fee_after_tw_bps = seed.wrapping_mul(11);
    s.token_swap_fee_before_tw_bps = seed.wrapping_mul(13);
    s.is_live = 1;
    s.lp_on = 1;
    s.use_curve_data = seed % 3;
    for k in 0..63 {
        s.additional_data[k] = seed.wrapping_add(k as u8);
    }
    s
}

fn sample_fund_state() -> FundState {
    let mut f = FundState {
        manager: [0xAA; 32],
        host_pubkey: [0xBB; 32],
        num_of_tokens: 3,
        current_comp_token: [0; NUM_TOKENS_IN_FUND],
        current_comp_amount: [0; NUM_TOKENS_IN_FUND],
        target_weight: [0; NUM_TOKENS_IN_FUND],
        weight_sum: 10_000,
        rebalance_threshold: 500,
        lp_offset_threshold: 2_000,
        lp_disabled: 0,
    };
    f.manager[0] = 1;
    f.host_pubkey[31] = 2;
    for i in 0..NUM_TOKENS_IN_FUND {
        f.current_comp_token[i] = (i as u64) * 3 + 1;
        f.current_comp_amount[i] = 0x0102_0304_0506_0708 + i as u64;
        f.target_weight[i] = 10_000 - i as u64;
    }
    f
}

#[test]
fn sizes_and_constants() {
    assert_eq!(FUND_STATE_ACCOUNT_SIZE, 10208);
    assert_eq!(TOKEN_LIST_ACCOUNT_SIZE, 39816);
    assert_eq!(CURVE_DATA_ACCOUNT_SIZE, 64008);
    assert_eq!(ORACLE_ACCOUNT_SIZE, [3312, 809]);
    assert_eq!(MAX_TOKENS_IN_ASSET_POOL, 100);
    assert_eq!(NUM_TOKENS_IN_FUND, 20);
    assert_eq!(NUM_OF_POINTS_IN_CURVE_DATA, 10);
    assert_eq!(USE_CURVE_DATA, 1);
    assert_eq!(FUND_LP_DISABLED, 1);
    assert_eq!(LP_DISABLED, 0);
}

#[test]
fn little_endian_reads() {
    let data = [0x01u8, 0x02, 0x03, 0x04, 0x05, 0x06, 0x07, 0x08, 0x09];
    assert_eq!(read_u32(&data, 0), 0x0403_0201);
    assert_eq!(read_u32(&data, 5), 0x0908_0706);
    assert_eq!(read_u64(&data, 0), 0x0807_0605_0403_0201);
    assert_eq!(read_u64(&data, 1), 0x0908_0706_0504_0302);
    assert_eq!(read_u64(&[0xFF; 8], 0), u64::MAX);
    assert_eq!(read_array::<3>(&data, 2), [3, 4, 5]);
    assert_eq!(read_array::<0>(&data, 9), []);
}

#[test]
fn little_endian_writes() {
    let mut buf = vec![0xEEu8; 12];
    write_u64(&mut buf, 2, 0x0807_0605_0403_0201);
    assert_eq!(buf, vec![0xEE, 0xEE, 1, 2, 3, 4, 5, 6, 7, 8, 0xEE, 0xEE]);
    write_u32(&mut buf, 0, 0xA1B2_C3D4);
    assert_eq!(buf, vec![0xD4, 0xC3, 0xB2, 0xA1, 3, 4, 5, 6, 7, 8, 0xEE, 0xEE]);
    write_array::<2>(&mut buf, 10, &[9, 10]);
    assert_eq!(buf, vec![0xD4, 0xC3, 0xB2, 0xA1, 3, 4, 5, 6, 7, 8, 9, 10]);
    write_u64(&mut buf, 4, u64::MAX);
    assert_eq!(read_u64(&buf, 4), u64::MAX);
    assert_eq!(u64::from_le_bytes([buf[4], buf[5], buf[6], buf[7], buf[8], buf[9], buf[10], buf[11]]), u64::MAX);
}

#[test]
fn fund_state_fields_sit_at_their_offsets() {
    let mut data = vec![0u8; 10208];
    for k in 0..32 {
        data[16 + k] = 100 + k as u8;
        data[128 + k] = 200 + k as u8;
    }
    put_u64(&mut data, 168, 4);
    for i in 0..20 {
        put_u64(&mut data, 176 + 8 * i, 1000 + i as u64);
        put_u64(&mut data, 336 + 8 * i, 2_000_000_000_000 + i as u64);
        put_u64(&mut data, 656 + 8 * i, 3000 + i as u64);
    }
    put_u64(&mut data, 816, 10_000);
    put_u64(&mut data, 1024, 77);
    put_u64(&mut data, 1040, 88);
    put_u64(&mut data, 9432, 1);
    // bytes between the fields are not read
    data[0] = 0xFF;
    data[48] = 0xFF;
    data[496] = 0xFF;
    data[655] = 0xFF;
    data[824] = 0xFF;
    data[1032] = 0xFF;
    data[10207] = 0xFF;
    let f = FundState::load(&data).unwrap();
    for k in 0..32 {
        assert_eq!(f.manager[k], 100 + k as u8);
        assert_eq!(f.host_pubkey[k], 200 + k as u8);
    }
    assert_eq!(f.num_of_tokens, 4);
    for i in 0..20 {
        assert_eq!(f.current_comp_token[i], 1000 + i as u64);
        assert_eq!(f.current_comp_amount[i], 2_000_000_000_000 + i as u64);
        assert_eq!(f.target_weight[i], 3000 + i as u64);
    }
    assert_eq!(f.weight_sum, 10_000);
    assert_eq!(f.rebalance_threshold, 77);
    assert_eq!(f.lp_offset_threshold, 88);
    assert_eq!(f.lp_disabled, 1);
}

#[test]
fn fund_state_of_wrong_size_is_refused() {
    for len in [0usize, 10207, 10209, 39816] {
        match FundState::load(&vec![0u8; len]) {
            Err(e) => assert_eq!(
                e,
                Error::WrongAccountSize { what: AccountKind::FundState, expected: 10208, got: len }
            ),
            Ok(_) => panic!("decoded {} bytes", len),
        }
    }
}

#[test]
fn fund_state_round_trip() {
    let f = sample_fund_state();
    let bytes = f.to_bytes();
    assert_eq!(bytes.len(), 10208);
    let g = FundState::load(&bytes).unwrap();
    assert_eq!(g.manager, f.manager);
    assert_eq!(g.host_pubkey, f.host_pubkey);
    assert_eq!(g.num_of_tokens, f.num_of_tokens);
    assert_eq!(g.current_comp_token, f.current_comp_token);
    assert_eq!(g.current_comp_amount, f.current_comp_amount);
    assert_eq!(g.target_weight, f.target_weight);
    assert_eq!(g.weight_sum, f.weight_sum);
    assert_eq!(g.rebalance_threshold, f.rebalance_threshold);
    assert_eq!(g.lp_offset_threshold, f.lp_offset_threshold);
    assert_eq!(g.lp_disabled, f.lp_disabled);
    assert_eq!(g.to_bytes(), bytes);
}

#[test]
fn fund_state_encoding_pads_with_zeros() {
    let bytes = sample_fund_state().to_bytes();
    assert!(bytes[0..16].iter().all(|b| *b == 0));
    assert!(bytes[48..128].iter().all(|b| *b == 0));
    assert!(bytes[160..168].iter().all(|b| *b == 0));
    assert!(bytes[496..656].iter().all(|b| *b == 0));
    assert!(bytes[824..1024].iter().all(|b| *b == 0));
    assert!(bytes[1032..1040].iter().all(|b| *b == 0));
    assert!(bytes[1048..9432].iter().all(|b| *b == 0));
    assert!(bytes[9440..].iter().all(|b| *b == 0));
    assert_eq!(bytes[16], 1);
    assert_eq!(&bytes[168..176], &3u64.to_le_bytes());
    assert_eq!(&bytes[336..344], &0x0102_0304_0506_0708u64.to_le_bytes());
}

#[test]
fn token_list_entries_sit_at_their_offsets() {
    let mut data = vec![0u8; 39816];
    put_u64(&mut data, 8, 2);
    for i in 0..3usize {
        let base = 16 + 199 * i;
        for k in 0..199 {
            data[base + k] = ((i * 50 + k) % 251) as u8 + 1;
        }
    }
    let t = TokenList::load(&data).unwrap();
    assert_eq!(t.num_tokens, 2);
    for i in 0..2usize {
        let at = |k: usize| ((i * 50 + k) % 251) as u8 + 1;
        let e = &t.list[i];
        for k in 0..32 {
            assert_eq!(e.token_mint[k], at(k));
            assert_eq!(e.pda_token_account[k], at(63 + k));
            assert_eq!(e.oracle_account[k], at(96 + k));
        }
        assert_eq!(e.decimals, at(32));
        assert_eq!(e.coingecko_id, [0; 30]);
        assert_eq!(e.oracle_type, at(95));
        assert_eq!(e.oracle_index, at(128));
        assert_eq!(e.oracle_confidence_pct, at(129));
        assert_eq!(e.fixed_confidence_bps, at(130));
        assert_eq!(e.token_swap_fee_after_tw_bps, at(131));
        assert_eq!(e.token_swap_fee_before_tw_bps, at(132));
        assert_eq!(e.is_live, at(133));
        assert_eq!(e.lp_on, at(134));
        assert_eq!(e.use_curve_data, at(135));
        for k in 0..63 {
            assert_eq!(e.additional_data[k], at(136 + k));
        }
        assert_eq!(e.oracle_price, OraclePrice { sell_price: 0, avg_price: 0, buy_price: 0, oracle_live: 0 });
    }
    // the third entry is in the account but not covered by the count
    for i in 2..100 {
        assert!(is_zero_settings(&t.list[i]));
    }
}

#[test]
fn token_list_with_no_tokens_is_all_zero() {
    let mut data = vec![0xFFu8; 39816];
    put_u64(&mut data, 8, 0);
    let t = TokenList::load(&data).unwrap();
    assert_eq!(t.num_tokens, 0);
    for i in 0..100 {
        assert!(is_zero_settings(&t.list[i]));
    }
}

#[test]
fn token_list_count_beyond_the_capacity_decodes_every_entry() {
    let mut data = vec![0u8; 39816];
    put_u64(&mut data, 8, 150);
    for i in 0..100usize {
        data[16 + 199 * i + 32] = i as u8 + 1;
    }
    let t = TokenList::load(&data).unwrap();
    assert_eq!(t.num_tokens, 150);
    for i in 0..100usize {
        assert_eq!(t.list[i].decimals, i as u8 + 1);
    }
    put_u64(&mut data, 8, u64::MAX);
    let t = TokenList::load(&data).unwrap();
    assert_eq!(t.num_tokens, u64::MAX);
    assert_eq!(t.list[99].decimals, 100);
}

#[test]
fn token_list_of_wrong_size_is_refused() {
    for len in [0usize, 39815, 39817, 10208] {
        match TokenList::load(&vec![0u8; len]) {
            Err(e) => assert_eq!(
                e,
                Error::WrongAccountSize { what: AccountKind::TokenList, expected: 39816, got: len }
            ),
            Ok(_) => panic!("decoded {} bytes", len),
        }
    }
}

#[test]
fn token_list_round_trip() {
    let mut t = TokenList { num_tokens: 40, list: [TokenSettings::zero(); 100] };
    for i in 0..40usize {
        t.list[i] = sample_settings(i as u8 + 1);
    }
    let bytes = t.to_bytes();
    assert_eq!(bytes.len(), 39816);
    assert!(bytes[0..8].iter().all(|b| *b == 0));
    assert!(bytes[16 + 199 * 100..].iter().all(|b| *b == 0));
    let u = TokenList::load(&bytes).unwrap();
    assert_eq!(u.num_tokens, 40);
    for i in 0..100usize {
        assert!(same_settings(&u.list[i], &t.list[i]));
    }
    assert_eq!(u.to_bytes(), bytes);
}

#[test]
fn token_list_round_trip_drops_what_no_decoder_reads() {
    let mut t = TokenList { num_tokens: 1, list: [TokenSettings::zero(); 100] };
    t.list[0] = sample_settings(5);
    t.list[0].coingecko_id = [b'x'; 30];
    t.list[0].oracle_price =
        OraclePrice { sell_price: 1, avg_price: 2, buy_price: 3, oracle_live: 1 };
    t.list[1] = sample_settings(6);
    let bytes = t.to_bytes();
    // the identifier is written, the entry beyond the count too
    assert_eq!(&bytes[16 + 33..16 + 63], &[b'x'; 30]);
    assert_eq!(bytes[16 + 199], 6);
    let u = TokenList::load(&bytes).unwrap();
    assert_eq!(u.list[0].coingecko_id, [0; 30]);
    assert_eq!(u.list[0].oracle_price, OraclePrice { sell_price: 0, avg_price: 0, buy_price: 0, oracle_live: 0 });
    assert_eq!(u.list[0].token_mint, t.list[0].token_mint);
    assert!(is_zero_settings(&u.list[1]));
}

#[test]
fn token_settings_decode_and_encode_at_a_base() {
    let s = sample_settings(9);
    let mut buf = vec![0x55u8; 300];
    s.encode_into(&mut buf, 50);
    assert!(buf[..50].iter().all(|b| *b == 0x55));
    assert!(buf[249..].iter().all(|b| *b == 0x55));
    assert!(same_settings(&TokenSettings::decode(&buf, 50), &s));
}

#[test]
fn curve_data_sides_sit_at_their_offsets() {
    let mut data = vec![0u8; 64008];
    for i in 0..100usize {
        for j in 0..10usize {
            put_u64(&mut data, 8 + 160 * i + 8 * j, (1_000_000 + 100 * i + j) as u64);
            put_u64(&mut data, 88 + 160 * i + 8 * j, (2_000_000 + 100 * i + j) as u64);
            put_u64(&mut data, 32008 + 160 * i + 8 * j, (3_000_000 + 100 * i + j) as u64);
            put_u64(&mut data, 32088 + 160 * i + 8 * j, (4_000_000 + 100 * i + j) as u64);
        }
    }
    let c = CurveData::load(&data).unwrap();
    for i in 0..100usize {
        for j in 0..10usize {
            assert_eq!(c.buy[i].amount[j], (1_000_000 + 100 * i + j) as u64);
            assert_eq!(c.buy[i].price[j], (2_000_000 + 100 * i + j) as u64);
            assert_eq!(c.sell[i].amount[j], (3_000_000 + 100 * i + j) as u64);
            assert_eq!(c.sell[i].price[j], (4_000_000 + 100 * i + j) as u64);
        }
    }
}

#[test]
fn curve_data_of_wrong_size_is_refused() {
    for len in [0usize, 64007, 64009] {
        match CurveData::load(&vec![0u8; len]) {
            Err(e) => assert_eq!(
                e,
                Error::WrongAccountSize { what: AccountKind::CurveData, expected: 64008, got: len }
            ),
            Ok(_) => panic!("decoded {} bytes", len),
        }
    }
}

#[test]
fn empty_curve_data_is_all_zero() {
    let c = CurveData::empty();
    for i in 0..100 {
        assert_eq!(c.buy[i].amount, [0; 10]);
        assert_eq!(c.buy[i].price, [0; 10]);
        assert_eq!(c.sell[i].amount, [0; 10]);
        assert_eq!(c.sell[i].price, [0; 10]);
    }
    assert!(c.to_bytes().iter().all(|b| *b == 0));
}

#[test]
fn curve_data_round_trip() {
    let mut c = CurveData::empty();
    for i in 0..100usize {
        for j in 0..10usize {
            c.buy[i].amount[j] = (i * 1000 + j) as u64;
            c.buy[i].price[j] = u64::MAX - (i * 10 + j) as u64;
            c.sell[i].amount[j] = (i * 7 + j * 13) as u64;
            c.sell[i].price[j] = 1 << (i % 64);
        }
    }
    let bytes = c.to_bytes();
    assert_eq!(bytes.len(), 64008);
    assert!(bytes[0..8].iter().all(|b| *b == 0));
    assert!(bytes[16008..32008].iter().all(|b| *b == 0));
    assert!(bytes[48008..].iter().all(|b| *b == 0));
    let d = CurveData::load(&bytes).unwrap();
    for i in 0..100usize {
        assert_eq!(d.buy[i].amount, c.buy[i].amount);
        assert_eq!(d.buy[i].price, c.buy[i].price);
        assert_eq!(d.sell[i].amount, c.sell[i].amount);
        assert_eq!(d.sell[i].price, c.sell[i].price);
    }
    assert_eq!(d.to_bytes(), bytes);
}

#[test]
fn token_price_data_decode_and_encode_at_a_base() {
    let mut p = TokenPriceData { amount: [0; 10], price: [0; 10] };
    for j in 0..10 {
        p.amount[j] = 11 * j as u64 + 1;
        p.price[j] = 1_000_000_007 * (j as u64 + 1);
    }
    let mut buf = vec![0x77u8; 200];
    p.encode_into(&mut buf, 20);
    assert!(buf[..20].iter().all(|b| *b == 0x77));
    assert!(buf[180..].iter().all(|b| *b == 0x77));
    assert_eq!(&buf[20..28], &1u64.to_le_bytes());
    assert_eq!(&buf[100..108], &1_000_000_007u64.to_le_bytes());
    let q = TokenPriceData::decode(&buf, 20);
    assert_eq!(q.amount, p.amount);
    assert_eq!(q.price, p.price);
}

fn well_formed_fund() -> FundState {
    let mut f = sample_fund_state();
    f.num_of_tokens = 3;
    f.current_comp_token = [0; NUM_TOKENS_IN_FUND];
    f.current_comp_token[0] = 5;
    f.current_comp_token[1] = 0;
    f.current_comp_token[2] = 99;
    f.target_weight = [0; NUM_TOKENS_IN_FUND];
    f.target_weight[0] = 2000;
    f.target_weight[1] = 3000;
    f.target_weight[2] = 5000;
    f.weight_sum = 10_000;
    f
}

#[test]
fn well_formed_fund_state_is_accepted() {
    assert!(well_formed_fund().is_well_formed());
    // positions beyond the count do not matter
    let mut f = well_formed_fund();
    f.current_comp_token[3] = 5;
    f.current_comp_token[4] = 1000;
    f.target_weight[3] = 1;
    assert!(f.is_well_formed());
    // an empty fund with no weight is well formed
    let mut f = well_formed_fund();
    f.num_of_tokens = 0;
    f.weight_sum = 0;
    assert!(f.is_well_formed());
    // a full fund too
    let mut f = well_formed_fund();
    f.num_of_tokens = 20;
    for i in 0..20 {
        f.current_comp_token[i] = 99 - i as u64;
        f.target_weight[i] = 500;
    }
    assert!(f.is_well_formed());
}

#[test]
fn fund_state_with_too_many_positions_is_ill_formed() {
    let mut f = well_formed_fund();
    f.num_of_tokens = 21;
    assert!(!f.is_well_formed());
    f.num_of_tokens = u64::MAX;
    assert!(!f.is_well_formed());
}

#[test]
fn fund_state_with_a_token_outside_the_registry_is_ill_formed() {
    let mut f = well_formed_fund();
    f.current_comp_token[2] = 100;
    assert!(!f.is_well_formed());
}

#[test]
fn fund_state_with_a_token_held_twice_is_ill_formed() {
    let mut f = well_formed_fund();
    f.current_comp_token[2] = 5;
    assert!(!f.is_well_formed());
    let mut f = well_formed_fund();
    f.current_comp_token[2] = 0;
    assert!(!f.is_well_formed());
}

#[test]
fn fund_state_whose_weights_do_not_add_up_is_ill_formed() {
    let mut f = well_formed_fund();
    f.weight_sum = 9_999;
    assert!(!f.is_well_formed());
    let mut f = well_formed_fund();
    f.target_weight[1] = 3001;
    assert!(!f.is_well_formed());
    // a sum beyond 64 bits equals no weight sum
    let mut f = well_formed_fund();
    f.target_weight[0] = u64::MAX;
    f.target_weight[1] = 1;
    f.target_weight[2] = 10_000;
    f.weight_sum = 10_000;
    assert!(!f.is_well_formed());
}
