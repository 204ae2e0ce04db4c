//! Failures of decoding and quoting.

use vstd::prelude::*;

verus! {

/// The account whose size was checked.
#[derive(Clone, Copy, Debug, PartialEq, Eq, Structural)]
pub enum AccountKind {
    FundState,
    TokenList,
    CurveData,
    Oracle,
    Clock,
}

/// One of the two tokens of a swap.
#[derive(Clone, Copy, Debug, PartialEq, Eq, Structural)]
pub enum Side {
    /// The token the caller sells to the fund.
    From,
    /// The token the caller buys from the fund.
    To,
}

/// Why a decode or a quote was refused. Every failure is final for the
/// call that reports it.
#[derive(Clone, Copy, Debug, PartialEq, Eq, Structural)]
pub enum Error {
    /// An account buffer does not have its fixed length.
    WrongAccountSize { what: AccountKind, expected: usize, got: usize },
    /// The mint is not in the registry.
    TokenNotFound { side: Side },
    /// The fund does not hold the token.
    TokenNotHeld { side: Side },
    /// Swapping is switched off for the fund or for one of the tokens.
    LpDisabled,
    /// The oracle of the registry token `token_id` is not live.
    OracleOffline { token_id: u64 },
    /// The swap would move a weight outside its allowed band.
    WeightOutOfBand { side: Side },
    /// A divisor of the computation is zero.
    ArithmeticDegenerate,
}

} // verus!
