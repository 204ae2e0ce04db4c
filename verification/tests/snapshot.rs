use rust_decimal::Decimal;
use symmetry_math::accounts::{
    Clock, CurveData, FundState, OraclePrice, TokenList, TokenSettings,
};
use symmetry_math::error::{AccountKind, Error};
use symmetry_math::math::ONE_USD;
use symmetry_math::quote::{FundSnapshot, QuoteParams};
use symmetry_math::snapshot::ZERO_KEY;

const ALPHABET: &[u8] = b"123456789ABCDEFGHJKLMNPQRSTUVWXYZabcdefghijkmnopqrstuvwxyz";

/// Decodes a base-58 key of 32 bytes.
fn key(text: &str) -> [u8; 32] {
    let mut out = [0u8; 32];
    for ch in text.bytes() {
        let mut carry = ALPHABET.iter().position(|c| *c == ch).unwrap() as u32;
        for byte in out.iter_mut().rev() {
            carry += *byte as u32 * 58;
            *byte = (carry & 0xFF) as u8;
            carry >>= 8;
        }
        assert_eq!(carry, 0);
    }
    out
}

const TABLE_KEY: [u8; 32] = [0x0A; 32];
const NOW: i64 = 1_700_000_000;

fn table_token(mint: [u8; 32], decimals: u8, oracle_index: u8) -> TokenSettings {
    let mut s = TokenSettings::zero();
    s.token_mint = mint;
    s.decimals = decimals;
    s.oracle_type = 1;
    s.oracle_account = TABLE_KEY;
    s.oracle_index = oracle_index;
    s.token_swap_fee_before_tw_bps = 10;
    s.token_swap_fee_after_tw_bps = 30;
    s.is_live = 1;
    s.lp_on = 1;
    s
}

fn table_account(mantissas: &[u64], write_timestamp: u64) -> Vec<u8> {
    let mut buf = vec![0u8; 809];
    for (i, m) in mantissas.iter().enumerate() {
        buf[9 + 8 * i..17 + 8 * i].copy_from_slice(&m.to_le_bytes());
        buf[409 + 8 * i..417 + 8 * i].copy_from_slice(&write_timestamp.to_le_bytes());
    }
    buf
}

fn registry(mints: [[u8; 32]; 4]) -> TokenList {
    let mut list = [TokenSettings::zero(); 100];
    list[0] = table_token(mints[0], 6, 0);
    list[1] = table_token(mints[1], 9, 1);
    list[2] = table_token(mints[2], 9, 2);
    list[3] = table_token(mints[3], 6, 3);
    TokenList { num_tokens: 4, list }
}

fn fund() -> FundState {
    let mut f = FundState {
        manager: [0x11; 32],
        host_pubkey: [0x22; 32],
        num_of_tokens: 4,
        current_comp_token: [0; 20],
        current_comp_amount: [0; 20],
        target_weight: [0; 20],
        weight_sum: 10_000,
        rebalance_threshold: 500,
        lp_offset_threshold: 10_000,
        lp_disabled: 0,
    };
    let holdings: [u64; 4] = [1_000_000_000, 50_000_000_000, 45_454_545_454, 1_000_000_000];
    for i in 0..4 {
        f.current_comp_token[i] = i as u64;
        f.current_comp_amount[i] = holdings[i];
        f.target_weight[i] = 2500;
    }
    f
}

fn prices() -> Vec<u8> {
    table_account(&[ONE_USD, 20 * ONE_USD, 22 * ONE_USD, ONE_USD], NOW as u64 - 5)
}

fn now() -> Clock {
    Clock { slot: 1, unix_timestamp: NOW }
}

fn clock_account(slot: u64, unix_timestamp: i64) -> Vec<u8> {
    let mut buf = vec![0u8; 40];
    buf[0..8].copy_from_slice(&slot.to_le_bytes());
    buf[8..16].copy_from_slice(&0x1111_1111_1111_1111u64.to_le_bytes());
    buf[16..24].copy_from_slice(&0x2222_2222_2222_2222u64.to_le_bytes());
    buf[24..32].copy_from_slice(&0x3333_3333_3333_3333u64.to_le_bytes());
    buf[32..40].copy_from_slice(&unix_timestamp.to_le_bytes());
    buf
}

fn now_account() -> Vec<u8> {
    clock_account(1, NOW)
}

fn default_mints() -> [[u8; 32]; 4] {
    [[1; 32], [2; 32], [3; 32], [4; 32]]
}

fn flat(price: u64) -> OraclePrice {
    OraclePrice { sell_price: price, avg_price: price, buy_price: price, oracle_live: 1 }
}

#[test]
fn test_symetry_token_swap() {
    let wsol_token_mint = key("So11111111111111111111111111111111111111112");
    let usdc_token_mint = key("EPjFWdd5AufqSSqeM2qN1xzybapC8G4wEGGkZwyTDt1v");
    let usdt_token_mint = key("Es9vMFrzaCERmJfrF4H2FYD4KCoNkY11McCe8BenwNYB");
    let msol_token_mint = key("mSoLzYCxHdYgdzU16g5QSh3i5K3z3KZK7ytfqcJm7So");
    assert_eq!(&wsol_token_mint[..4], &[6, 155, 136, 87]);
    assert_eq!(&msol_token_mint[30..], &[76, 128]);

    /* Init and update the swap (fund state + token list + curve data + oracle accounts) */
    let fund_state_account = fund().to_bytes();
    let token_list_account =
        registry([usdc_token_mint, wsol_token_mint, msol_token_mint, usdt_token_mint]).to_bytes();
    let curve_data_account = CurveData::empty().to_bytes();
    let oracle_accounts = vec![prices(), prices(), prices(), prices()];
    let token_swap = FundSnapshot::update(
        &fund_state_account,
        &token_list_account,
        &curve_data_account,
        &now_account(),
        &oracle_accounts,
    )
    .unwrap();

    /* Token mints available for swap in a fund */
    println!("-------------------");
    let token_mints = token_swap.get_reserve_mints();
    println!("Available mints for swap: {:?}", token_mints);
    assert_eq!(token_mints, vec![usdc_token_mint, wsol_token_mint, msol_token_mint, usdt_token_mint]);
    let from_token_mint: [u8; 32] =
        token_mints.clone().into_iter().find(|&x| x == wsol_token_mint).unwrap();
    let to_token_mint: [u8; 32] =
        token_mints.clone().into_iter().find(|&x| x == msol_token_mint).unwrap();

    /* Get Quote */
    println!("-------------------");
    let in_amount: u64 = 100_000_000; // 0.1 WSOL -> ? MSOL
    let quote = token_swap
        .quote(&QuoteParams {
            input_mint: from_token_mint,
            in_amount: in_amount,
            output_mint: to_token_mint,
        })
        .unwrap();
    println!("Quote result: {:?}", quote);
    println!("------------");
    assert_eq!(quote.in_amount, 100_000_000);
    assert_eq!(quote.out_amount, 90_364_454);
    assert_eq!(quote.fee_amount, 544_636);
    assert_eq!(quote.fee_mint, msol_token_mint);
    assert_eq!(quote.fee_pct, Decimal::new(5990, 4));
}

#[test]
fn update_attaches_prices_and_adds_up_the_worth() {
    let s = FundSnapshot::update(
        &fund().to_bytes(),
        &registry(default_mints()).to_bytes(),
        &CurveData::empty().to_bytes(),
        &now_account(),
        &vec![prices(); 4],
    )
    .unwrap();
    assert_eq!(s.fund_worth, 3_999_999_999_988_000);
    assert_eq!(s.token_list.num_tokens, 4);
    assert_eq!(s.token_list.list[0].oracle_price, flat(ONE_USD));
    assert_eq!(s.token_list.list[1].oracle_price, flat(20 * ONE_USD));
    assert_eq!(s.token_list.list[2].oracle_price, flat(22 * ONE_USD));
    assert_eq!(s.token_list.list[3].oracle_price, flat(ONE_USD));
    assert_eq!(s.token_list.list[4].oracle_price, OraclePrice { sell_price: 0, avg_price: 0, buy_price: 0, oracle_live: 0 });
    assert_eq!(s.token_list.list[1].token_mint, [2; 32]);
    assert_eq!(s.token_list.list[1].decimals, 9);
    assert_eq!(s.fund_state.current_comp_amount[2], 45_454_545_454);
    assert_eq!(s.fund_state.manager, [0x11; 32]);
    assert_eq!(s.curve_data.sell[0].amount, [0; 10]);
}

#[test]
fn update_prices_only_the_held_tokens() {
    let mut f = fund();
    f.num_of_tokens = 2;
    f.current_comp_token[0] = 3;
    f.current_comp_token[1] = 1;
    let s = FundSnapshot::update(
        &f.to_bytes(),
        &registry(default_mints()).to_bytes(),
        &CurveData::empty().to_bytes(),
        &now_account(),
        &vec![prices(); 2],
    )
    .unwrap();
    // 1000 units of token 3 at one dollar and 50 of token 1 at twenty
    assert_eq!(s.fund_worth, 1_000_000_000_000_000 + 1_000_000_000_000_000);
    assert_eq!(s.token_list.list[3].oracle_price, flat(ONE_USD));
    assert_eq!(s.token_list.list[1].oracle_price, flat(20 * ONE_USD));
    assert_eq!(s.token_list.list[0].oracle_price.oracle_live, 0);
    assert_eq!(s.token_list.list[2].oracle_price.oracle_live, 0);
}

#[test]
fn update_of_an_empty_fund_is_worth_nothing() {
    let mut f = fund();
    f.num_of_tokens = 0;
    let s = FundSnapshot::update(
        &f.to_bytes(),
        &registry(default_mints()).to_bytes(),
        &CurveData::empty().to_bytes(),
        &now_account(),
        &Vec::new(),
    )
    .unwrap();
    assert_eq!(s.fund_worth, 0);
    assert!(s.get_reserve_mints().is_empty());
    assert!(s.get_oracle_accounts().is_empty());
}

#[test]
fn update_refuses_accounts_of_wrong_size_in_order() {
    let f = fund().to_bytes();
    let t = registry(default_mints()).to_bytes();
    let c = CurveData::empty().to_bytes();
    let o = vec![prices(); 4];
    let k = now_account();
    let e = FundSnapshot::update(&f[1..], &t[1..], &c[1..], &k[1..], &o).unwrap_err();
    assert_eq!(e, Error::WrongAccountSize { what: AccountKind::TokenList, expected: 39816, got: 39815 });
    let e = FundSnapshot::update(&f[1..], &t, &c[1..], &k[1..], &o).unwrap_err();
    assert_eq!(e, Error::WrongAccountSize { what: AccountKind::CurveData, expected: 64008, got: 64007 });
    let e = FundSnapshot::update(&f[1..], &t, &c, &k[1..], &o).unwrap_err();
    assert_eq!(e, Error::WrongAccountSize { what: AccountKind::Clock, expected: 40, got: 39 });
    let e = FundSnapshot::update(&f[1..], &t, &c, &k, &o).unwrap_err();
    assert_eq!(e, Error::WrongAccountSize { what: AccountKind::FundState, expected: 10208, got: 10207 });
    assert!(FundSnapshot::update(&f, &t, &c, &k, &o).is_ok());
}

#[test]
fn update_refuses_an_oracle_account_of_wrong_size() {
    let mut o = vec![prices(); 4];
    o[2] = vec![0u8; 3312];
    let e = FundSnapshot::update(
        &fund().to_bytes(),
        &registry(default_mints()).to_bytes(),
        &CurveData::empty().to_bytes(),
        &now_account(),
        &o,
    )
    .unwrap_err();
    assert_eq!(e, Error::WrongAccountSize { what: AccountKind::Oracle, expected: 809, got: 3312 });
}

#[test]
fn update_counts_a_missing_oracle_account_as_empty() {
    let e = FundSnapshot::update(
        &fund().to_bytes(),
        &registry(default_mints()).to_bytes(),
        &CurveData::empty().to_bytes(),
        &now_account(),
        &vec![prices(); 3],
    )
    .unwrap_err();
    assert_eq!(e, Error::WrongAccountSize { what: AccountKind::Oracle, expected: 809, got: 0 });
}

#[test]
fn update_refuses_an_offline_oracle() {
    let stale = table_account(&[ONE_USD, 20 * ONE_USD, 22 * ONE_USD, ONE_USD], NOW as u64 - 41);
    let mut o = vec![prices(); 4];
    o[1] = stale;
    let e = FundSnapshot::update(
        &fund().to_bytes(),
        &registry(default_mints()).to_bytes(),
        &CurveData::empty().to_bytes(),
        &now_account(),
        &o,
    )
    .unwrap_err();
    assert_eq!(e, Error::OracleOffline { token_id: 1 });
    // an unknown oracle type is offline too
    let mut t = registry(default_mints());
    t.list[3].oracle_type = 7;
    let e = FundSnapshot::update(
        &fund().to_bytes(),
        &t.to_bytes(),
        &CurveData::empty().to_bytes(),
        &now_account(),
        &vec![prices(); 4],
    )
    .unwrap_err();
    assert_eq!(e, Error::OracleOffline { token_id: 3 });
}

#[test]
fn update_stops_at_the_first_failing_position() {
    let stale = table_account(&[ONE_USD, 20 * ONE_USD, 22 * ONE_USD, ONE_USD], NOW as u64 - 41);
    let o = vec![prices(), stale, vec![0u8; 5], prices()];
    let e = FundSnapshot::update(
        &fund().to_bytes(),
        &registry(default_mints()).to_bytes(),
        &CurveData::empty().to_bytes(),
        &now_account(),
        &o,
    )
    .unwrap_err();
    assert_eq!(e, Error::OracleOffline { token_id: 1 });
}

#[test]
fn update_treats_a_position_outside_the_registry_as_offline() {
    let mut f = fund();
    f.current_comp_token[2] = 100;
    let e = FundSnapshot::update(
        &f.to_bytes(),
        &registry(default_mints()).to_bytes(),
        &CurveData::empty().to_bytes(),
        &now_account(),
        &vec![prices(); 4],
    )
    .unwrap_err();
    assert_eq!(e, Error::OracleOffline { token_id: 100 });
}

#[test]
fn update_with_a_count_beyond_the_capacity_visits_every_position() {
    let mut f = fund();
    f.num_of_tokens = 1000;
    for i in 0..20 {
        f.current_comp_token[i] = (i % 4) as u64;
        f.current_comp_amount[i] = 1_000_000;
    }
    let s = FundSnapshot::update(
        &f.to_bytes(),
        &registry(default_mints()).to_bytes(),
        &CurveData::empty().to_bytes(),
        &now_account(),
        &vec![prices(); 20],
    )
    .unwrap();
    // five times: 1 + 0.02 + 0.022 + 1 dollars
    assert_eq!(s.fund_worth, 5 * 2_042_000_000_000);
    assert_eq!(s.get_oracle_accounts().len(), 20);
    assert_eq!(s.get_reserve_mints().len(), 20);
}

#[test]
fn worth_beyond_64_bits_is_zero() {
    let mut f = fund();
    for i in 0..4 {
        f.current_comp_amount[i] = 6_000_000_000_000;
    }
    let mut t = registry(default_mints());
    for i in 0..4 {
        t.list[i].decimals = 6;
    }
    let big = table_account(&[ONE_USD, ONE_USD, ONE_USD, ONE_USD], NOW as u64);
    let s = FundSnapshot::update(
        &f.to_bytes(),
        &t.to_bytes(),
        &CurveData::empty().to_bytes(),
        &now_account(),
        &vec![big; 4],
    )
    .unwrap();
    // four holdings of six million dollars each
    assert_eq!(s.fund_worth, 0);
}

#[test]
fn assemble_matches_update() {
    let a = FundSnapshot::assemble(fund(), registry(default_mints()), CurveData::empty(), &vec![prices(); 4], now()).unwrap();
    let u = FundSnapshot::update(
        &fund().to_bytes(),
        &registry(default_mints()).to_bytes(),
        &CurveData::empty().to_bytes(),
        &now_account(),
        &vec![prices(); 4],
    )
    .unwrap();
    assert_eq!(a.fund_worth, u.fund_worth);
    for i in 0..100 {
        assert_eq!(a.token_list.list[i].oracle_price, u.token_list.list[i].oracle_price);
        assert_eq!(a.token_list.list[i].token_mint, u.token_list.list[i].token_mint);
    }
}

#[test]
fn reserve_mints_are_the_open_held_tokens_in_position_order() {
    let mut f = fund();
    f.current_comp_token[0] = 2;
    f.current_comp_token[1] = 0;
    f.current_comp_token[2] = 3;
    f.current_comp_token[3] = 1;
    let mut t = registry(default_mints());
    t.list[3].lp_on = 0;
    let s = FundSnapshot { fund_state: f, token_list: t, curve_data: CurveData::empty(), fund_worth: 0 };
    assert_eq!(s.get_reserve_mints(), vec![[3u8; 32], [1; 32], [2; 32]]);
    let mut s = s;
    s.fund_state.num_of_tokens = 2;
    assert_eq!(s.get_reserve_mints(), vec![[3u8; 32], [1; 32]]);
    s.fund_state.current_comp_token[1] = 100;
    assert_eq!(s.get_reserve_mints(), vec![[3u8; 32]]);
}

#[test]
fn oracle_accounts_follow_the_positions() {
    let mut f = fund();
    f.num_of_tokens = 3;
    f.current_comp_token[0] = 2;
    f.current_comp_token[1] = 0;
    f.current_comp_token[2] = 250;
    let mut t = registry(default_mints());
    t.list[0].oracle_account = [0xA0; 32];
    t.list[2].oracle_account = [0xA2; 32];
    let s = FundSnapshot { fund_state: f, token_list: t, curve_data: CurveData::empty(), fund_worth: 0 };
    assert_eq!(s.get_oracle_accounts(), vec![[0xA2u8; 32], [0xA0; 32], ZERO_KEY]);
    assert_eq!(ZERO_KEY, [0u8; 32]);
}

#[test]
fn clock_fields_sit_at_their_offsets() {
    assert_eq!(Clock::load(&clock_account(77, 1_700_000_000)), Ok(Clock { slot: 77, unix_timestamp: 1_700_000_000 }));
    assert_eq!(Clock::load(&clock_account(u64::MAX, -5)), Ok(Clock { slot: u64::MAX, unix_timestamp: -5 }));
    assert_eq!(Clock::load(&clock_account(0, i64::MIN)), Ok(Clock { slot: 0, unix_timestamp: i64::MIN }));
    assert_eq!(Clock::load(&clock_account(0, i64::MAX)), Ok(Clock { slot: 0, unix_timestamp: i64::MAX }));
}

#[test]
fn clock_of_wrong_size_is_refused() {
    for len in [0usize, 39, 41] {
        assert_eq!(
            Clock::load(&vec![0u8; len]),
            Err(Error::WrongAccountSize { what: AccountKind::Clock, expected: 40, got: len })
        );
    }
}

#[test]
fn update_reads_the_time_from_the_clock_account() {
    let later = clock_account(1, NOW + 36);
    let e = FundSnapshot::update(
        &fund().to_bytes(),
        &registry(default_mints()).to_bytes(),
        &CurveData::empty().to_bytes(),
        &later,
        &vec![prices(); 4],
    )
    .unwrap_err();
    // the entries were written five seconds before NOW
    assert_eq!(e, Error::OracleOffline { token_id: 0 });
}
