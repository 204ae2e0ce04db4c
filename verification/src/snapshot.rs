//! Assembly of a snapshot from freshly decoded accounts: every held
//! token gets its oracle price, and the holdings are added up to the
//! fund's worth.

use vstd::prelude::*;
use crate::accounts::{
    Clock, CurveData, FundState, OraclePrice, TokenList, TokenSettings, CLOCK_ACCOUNT_SIZE,
    CURVE_DATA_ACCOUNT_SIZE, FUND_STATE_ACCOUNT_SIZE, LP_DISABLED, MAX_TOKENS_IN_ASSET_POOL, NUM_TOKENS_IN_FUND,
    TOKEN_LIST_ACCOUNT_SIZE,
};
use crate::error::{AccountKind, Error};
use crate::math::{amount_to_usd_spec, fit_u64};
use crate::oracle::{normalized_price, offline_price};
use crate::quote::{held_positions, FundSnapshot};
use crate::token_swap::SymmetryMath;

verus! {

/// The oracle account supplied for position `i`. One that was not
/// supplied counts as an empty account.
pub open spec fn oracle_account_data(oracle_data: Seq<Vec<u8>>, i: int) -> Seq<u8> {
    if 0 <= i < oracle_data.len() {
        oracle_data[i]@
    } else {
        Seq::empty()
    }
}

/// The price of the token at position `i`, or why the position stops the
/// update: the oracle account cannot be decoded, or the oracle is not
/// live. A position that names no registry token has no oracle, which
/// counts as not live.
pub open spec fn position_price(
    fund: FundState,
    tokens: TokenList,
    oracle_data: Seq<Vec<u8>>,
    clock: Clock,
    i: int,
) -> Result<OraclePrice, Error> {
    let id = fund.current_comp_token[i];
    if id >= MAX_TOKENS_IN_ASSET_POOL {
        Err(Error::OracleOffline { token_id: id })
    } else {
        match normalized_price(oracle_account_data(oracle_data, i), tokens.list[id as int], clock) {
            Err(e) => Err(e),
            Ok(p) => if p.oracle_live != 1 {
                Err(Error::OracleOffline { token_id: id })
            } else {
                Ok(p)
            },
        }
    }
}

/// Why the update stops within the first `n` positions, if it does: the
/// failure of the first position that has one.
pub open spec fn first_failure(
    fund: FundState,
    tokens: TokenList,
    oracle_data: Seq<Vec<u8>>,
    clock: Clock,
    n: int,
) -> Option<Error>
    decreases n,
{
    if n <= 0 {
        None
    } else {
        match first_failure(fund, tokens, oracle_data, clock, n - 1) {
            Some(e) => Some(e),
            None => match position_price(fund, tokens, oracle_data, clock, n - 1) {
                Err(e) => Some(e),
                Ok(_) => None,
            },
        }
    }
}

/// Dollar value of the holdings at the first `n` positions, at average
/// prices.
pub open spec fn worth_upto(
    fund: FundState,
    tokens: TokenList,
    oracle_data: Seq<Vec<u8>>,
    clock: Clock,
    n: int,
) -> int
    decreases n,
{
    if n <= 0 {
        0
    } else {
        worth_upto(fund, tokens, oracle_data, clock, n - 1) + match position_price(
            fund,
            tokens,
            oracle_data,
            clock,
            n - 1,
        ) {
            Ok(p) => amount_to_usd_spec(
                fund.current_comp_amount[n - 1] as int,
                tokens.list[fund.current_comp_token[n - 1] as int].decimals as int,
                p.avg_price as int,
            ),
            Err(_) => 0,
        }
    }
}

/// The price that the first `n` positions give the registry token
/// `token_id`: that of the last position that holds it, or the offline
/// price if none does.
pub open spec fn price_of_token(
    fund: FundState,
    tokens: TokenList,
    oracle_data: Seq<Vec<u8>>,
    clock: Clock,
    token_id: int,
    n: int,
) -> OraclePrice
    decreases n,
{
    if n <= 0 {
        tokens.list[token_id].oracle_price
    } else if fund.current_comp_token[n - 1] == token_id {
        match position_price(fund, tokens, oracle_data, clock, n - 1) {
            Ok(p) => p,
            Err(_) => offline_price(),
        }
    } else {
        price_of_token(fund, tokens, oracle_data, clock, token_id, n - 1)
    }
}

/// A failure within the first `m` positions is the failure of any
/// longer run of positions.
pub proof fn lemma_failure_sticks(
    fund: FundState,
    tokens: TokenList,
    oracle_data: Seq<Vec<u8>>,
    clock: Clock,
    m: int,
    n: int,
)
    requires
        m <= n,
        first_failure(fund, tokens, oracle_data, clock, m) is Some,
    ensures
        first_failure(fund, tokens, oracle_data, clock, n) == first_failure(
            fund,
            tokens,
            oracle_data,
            clock,
            m,
        ),
    decreases n - m,
{
    if m < n {
        lemma_failure_sticks(fund, tokens, oracle_data, clock, m, n - 1);
    }
}

impl TokenSettings {
    /// This entry with `price` attached.
    pub open spec fn with_price(self, price: OraclePrice) -> TokenSettings {
        TokenSettings { oracle_price: price, ..self }
    }
}

impl FundSnapshot {
    /// Whether this is the snapshot of the given accounts at `clock`:
    /// the fund state and the curves as they are, the registry with the
    /// price of every held token attached, and the worth of all
    /// holdings. A worth that does not fit in 64 bits is zero.
    pub open spec fn assembled_from(
        self,
        fund: FundState,
        tokens: TokenList,
        curves: CurveData,
        oracle_data: Seq<Vec<u8>>,
        clock: Clock,
    ) -> bool {
        &&& self.fund_state == fund
        &&& self.curve_data == curves
        &&& self.token_list.num_tokens == tokens.num_tokens
        &&& forall|t: int|
            0 <= t < MAX_TOKENS_IN_ASSET_POOL ==> #[trigger] self.token_list.list[t]
                == tokens.list[t].with_price(
                price_of_token(fund, tokens, oracle_data, clock, t, held_positions(fund)),
            )
        &&& self.fund_worth == fit_u64(
            worth_upto(fund, tokens, oracle_data, clock, held_positions(fund)),
        )
    }

    /// Builds the snapshot of decoded accounts at `clock`. `oracle_data`
    /// holds the oracle account of each populated position, in the
    /// order of the positions.
    ///
    /// Fails at the first position whose oracle account cannot be
    /// decoded or whose oracle is not live.
    pub fn assemble(
        fund_state: FundState,
        token_list: TokenList,
        curve_data: CurveData,
        oracle_data: &Vec<Vec<u8>>,
        clock: Clock,
    ) -> (r: Result<FundSnapshot, Error>)
        ensures
            match first_failure(
                fund_state,
                token_list,
                oracle_data@,
                clock,
                held_positions(fund_state),
            ) {
                Some(e) => r == Err::<FundSnapshot, Error>(e),
                None => r is Ok && r->Ok_0.assembled_from(
                    fund_state,
                    token_list,
                    curve_data,
                    oracle_data@,
                    clock,
                ),
            },
    {
        let held: usize = if fund_state.num_of_tokens > NUM_TOKENS_IN_FUND as u64 {
            NUM_TOKENS_IN_FUND
        } else {
            fund_state.num_of_tokens as usize
        };
        let empty: Vec<u8> = Vec::new();
        let mut priced: TokenList = token_list;
        let mut worth: u128 = 0;
        let mut i: usize = 0;
        while i < held
            invariant
                i <= held <= NUM_TOKENS_IN_FUND,
                held == held_positions(fund_state),
                empty@.len() == 0,
                first_failure(fund_state, token_list, oracle_data@, clock, i as int) is None,
                worth == worth_upto(fund_state, token_list, oracle_data@, clock, i as int),
                worth <= i * u64::MAX,
                priced.num_tokens == token_list.num_tokens,
                forall|t: int|
                    0 <= t < MAX_TOKENS_IN_ASSET_POOL ==> #[trigger] priced.list[t]
                        == token_list.list[t].with_price(
                        price_of_token(fund_state, token_list, oracle_data@, clock, t, i as int),
                    ),
            decreases held - i,
        {
            let id: u64 = fund_state.current_comp_token[i];
            if id >= MAX_TOKENS_IN_ASSET_POOL as u64 {
                proof {
                    lemma_failure_sticks(
                        fund_state,
                        token_list,
                        oracle_data@,
                        clock,
                        i + 1,
                        held as int,
                    );
                }
                return Err(Error::OracleOffline { token_id: id });
            }
            let settings: TokenSettings = token_list.list[id as usize];
            let account: &[u8] = if i < oracle_data.len() {
                oracle_data[i].as_slice()
            } else {
                empty.as_slice()
            };
            assert(account@ =~= oracle_account_data(oracle_data@, i as int));
            let price = match OraclePrice::load(account, settings, clock) {
                Ok(price) => price,
                Err(e) => {
                    proof {
                        lemma_failure_sticks(
                            fund_state,
                            token_list,
                            oracle_data@,
                            clock,
                            i + 1,
                            held as int,
                        );
                    }
                    return Err(e);
                },
            };
            if price.oracle_live != 1 {
                proof {
                    lemma_failure_sticks(
                        fund_state,
                        token_list,
                        oracle_data@,
                        clock,
                        i + 1,
                        held as int,
                    );
                }
                return Err(Error::OracleOffline { token_id: id });
            }
            let mut entry: TokenSettings = priced.list[id as usize];
            entry.oracle_price = price;
            priced.list[id as usize] = entry;
            let value: u64 = SymmetryMath::amount_to_usd_value(
                fund_state.current_comp_amount[i],
                settings.decimals,
                price.avg_price,
            );
            worth = worth + value as u128;
            i = i + 1;
        }
        Ok(
            FundSnapshot {
                fund_state,
                token_list: priced,
                curve_data,
                fund_worth: if worth > u64::MAX as u128 {
                    0
                } else {
                    worth as u64
                },
            },
        )
    }
}

/// Whether the three records are the ones that the three accounts hold.
pub open spec fn accounts_decoded(
    fund: FundState,
    tokens: TokenList,
    curves: CurveData,
    fund_state_data: Seq<u8>,
    token_list_data: Seq<u8>,
    curve_data: Seq<u8>,
) -> bool {
    &&& fund.decoded_from(fund_state_data)
    &&& tokens.decoded_from(token_list_data)
    &&& curves.decoded_from(curve_data)
}

/// Whether `r` is what assembling the three records at `clock` gives.
pub open spec fn is_assembly_of(
    r: Result<FundSnapshot, Error>,
    fund: FundState,
    tokens: TokenList,
    curves: CurveData,
    oracle_data: Seq<Vec<u8>>,
    clock: Clock,
) -> bool {
    match first_failure(fund, tokens, oracle_data, clock, held_positions(fund)) {
        Some(e) => r == Err::<FundSnapshot, Error>(e),
        None => r is Ok && r->Ok_0.assembled_from(fund, tokens, curves, oracle_data, clock),
    }
}

/// Mints of the tokens at the first `n` positions that are open to
/// swaps, in the order of the positions. A position that names no
/// registry token has no mint.
pub open spec fn reserve_mints_upto(fund: FundState, tokens: TokenList, n: int) -> Seq<[u8; 32]>
    decreases n,
{
    if n <= 0 {
        Seq::empty()
    } else {
        let id = fund.current_comp_token[n - 1];
        if id < MAX_TOKENS_IN_ASSET_POOL && tokens.list[id as int].lp_on != LP_DISABLED {
            reserve_mints_upto(fund, tokens, n - 1).push(tokens.list[id as int].token_mint)
        } else {
            reserve_mints_upto(fund, tokens, n - 1)
        }
    }
}

/// The oracle account of the token at position `i`, or the zero key if
/// the position names no registry token.
pub open spec fn oracle_account_of(fund: FundState, tokens: TokenList, i: int) -> [u8; 32] {
    let id = fund.current_comp_token[i];
    if id < MAX_TOKENS_IN_ASSET_POOL {
        tokens.list[id as int].oracle_account
    } else {
        ZERO_KEY
    }
}

/// The key with every byte zero.
pub const ZERO_KEY: [u8; 32] = [
    0, 0, 0, 0, 0, 0, 0, 0, 0, 0, 0, 0, 0, 0, 0, 0, 0, 0, 0, 0, 0, 0, 0, 0, 0, 0, 0, 0, 0, 0, 0, 0,
];

impl FundSnapshot {
    /// Decodes the accounts and builds their snapshot at the clock that
    /// the clock account holds.
    ///
    /// Fails with the first account that has the wrong length, in the
    /// order token registry, curve table, clock, fund state, and else as
    /// `assemble` does.
    pub fn update(
        fund_state_data: &[u8],
        token_list_data: &[u8],
        curve_data: &[u8],
        clock_data: &[u8],
        oracle_data: &Vec<Vec<u8>>,
    ) -> (r: Result<FundSnapshot, Error>)
        ensures
            token_list_data.len() != TOKEN_LIST_ACCOUNT_SIZE ==> r == Err::<FundSnapshot, Error>(
                Error::WrongAccountSize {
                    what: AccountKind::TokenList,
                    expected: TOKEN_LIST_ACCOUNT_SIZE,
                    got: token_list_data.len(),
                },
            ),
            token_list_data.len() == TOKEN_LIST_ACCOUNT_SIZE && curve_data.len()
                != CURVE_DATA_ACCOUNT_SIZE ==> r == Err::<FundSnapshot, Error>(
                Error::WrongAccountSize {
                    what: AccountKind::CurveData,
                    expected: CURVE_DATA_ACCOUNT_SIZE,
                    got: curve_data.len(),
                },
            ),
            token_list_data.len() == TOKEN_LIST_ACCOUNT_SIZE && curve_data.len()
                == CURVE_DATA_ACCOUNT_SIZE && clock_data.len() != CLOCK_ACCOUNT_SIZE ==> r
                == Err::<FundSnapshot, Error>(
                Error::WrongAccountSize {
                    what: AccountKind::Clock,
                    expected: CLOCK_ACCOUNT_SIZE,
                    got: clock_data.len(),
                },
            ),
            token_list_data.len() == TOKEN_LIST_ACCOUNT_SIZE && curve_data.len()
                == CURVE_DATA_ACCOUNT_SIZE && clock_data.len() == CLOCK_ACCOUNT_SIZE
                && fund_state_data.len() != FUND_STATE_ACCOUNT_SIZE ==> r == Err::<
                FundSnapshot,
                Error,
            >(
                Error::WrongAccountSize {
                    what: AccountKind::FundState,
                    expected: FUND_STATE_ACCOUNT_SIZE,
                    got: fund_state_data.len(),
                },
            ),
            token_list_data.len() == TOKEN_LIST_ACCOUNT_SIZE && curve_data.len()
                == CURVE_DATA_ACCOUNT_SIZE && clock_data.len() == CLOCK_ACCOUNT_SIZE
                && fund_state_data.len() == FUND_STATE_ACCOUNT_SIZE ==> exists|
                fund: FundState,
                tokens: TokenList,
                curves: CurveData,
            |
                #[trigger] accounts_decoded(
                    fund,
                    tokens,
                    curves,
                    fund_state_data@,
                    token_list_data@,
                    curve_data@,
                ) && is_assembly_of(
                    r,
                    fund,
                    tokens,
                    curves,
                    oracle_data@,
                    Clock::decoded(clock_data@),
                ),
    {
        let token_list = match TokenList::load(token_list_data) {
            Ok(token_list) => token_list,
            Err(e) => {
                return Err(e);
            },
        };
        let curves = match CurveData::load(curve_data) {
            Ok(curves) => curves,
            Err(e) => {
                return Err(e);
            },
        };
        let clock = match Clock::load(clock_data) {
            Ok(clock) => clock,
            Err(e) => {
                return Err(e);
            },
        };
        let fund_state = match FundState::load(fund_state_data) {
            Ok(fund_state) => fund_state,
            Err(e) => {
                return Err(e);
            },
        };
        let r = Self::assemble(fund_state, token_list, curves, oracle_data, clock);
        assert(accounts_decoded(
            fund_state,
            token_list,
            curves,
            fund_state_data@,
            token_list_data@,
            curve_data@,
        ) && is_assembly_of(r, fund_state, token_list, curves, oracle_data@, clock));
        r
    }

    /// Mints of the held tokens that are open to swaps, in the order of
    /// their positions.
    pub fn get_reserve_mints(&self) -> (r: Vec<[u8; 32]>)
        ensures
            r@ == reserve_mints_upto(
                self.fund_state,
                self.token_list,
                held_positions(self.fund_state),
            ),
    {
        let held: usize = if self.fund_state.num_of_tokens > NUM_TOKENS_IN_FUND as u64 {
            NUM_TOKENS_IN_FUND
        } else {
            self.fund_state.num_of_tokens as usize
        };
        let mut mints: Vec<[u8; 32]> = Vec::new();
        let mut i: usize = 0;
        while i < held
            invariant
                i <= held <= NUM_TOKENS_IN_FUND,
                mints@ == reserve_mints_upto(self.fund_state, self.token_list, i as int),
            decreases held - i,
        {
            let id: u64 = self.fund_state.current_comp_token[i];
            if id < MAX_TOKENS_IN_ASSET_POOL as u64 {
                if self.token_list.list[id as usize].lp_on != LP_DISABLED {
                    mints.push(self.token_list.list[id as usize].token_mint);
                }
            }
            i = i + 1;
        }
        mints
    }

    /// Oracle account of each populated position, in the order of the
    /// positions: the accounts that the next update needs besides the
    /// fund state, the registry, the curve table and the clock.
    pub fn get_oracle_accounts(&self) -> (r: Vec<[u8; 32]>)
        ensures
            r.len() == held_positions(self.fund_state),
            forall|i: int|
                0 <= i < r.len() ==> r[i] == oracle_account_of(self.fund_state, self.token_list, i),
    {
        let held: usize = if self.fund_state.num_of_tokens > NUM_TOKENS_IN_FUND as u64 {
            NUM_TOKENS_IN_FUND
        } else {
            self.fund_state.num_of_tokens as usize
        };
        let mut accounts: Vec<[u8; 32]> = Vec::new();
        let mut i: usize = 0;
        while i < held
            invariant
                i <= held <= NUM_TOKENS_IN_FUND,
                accounts.len() == i,
                forall|k: int|
                    0 <= k < i ==> accounts[k] == oracle_account_of(
                        self.fund_state,
                        self.token_list,
                        k,
                    ),
            decreases held - i,
        {
            let id: u64 = self.fund_state.current_comp_token[i];
            if id < MAX_TOKENS_IN_ASSET_POOL as u64 {
                accounts.push(self.token_list.list[id as usize].oracle_account);
            } else {
                accounts.push(ZERO_KEY);
            }
            i = i + 1;
        }
        accounts
    }
}

} // verus!
