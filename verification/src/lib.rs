//! Pricing and quoting core of a weighted multi-token fund.
//!
//! A fund holds a basket of tokens, each with a target weight. The crate
//! decodes the fund's fixed-layout accounts, normalises oracle prices,
//! walks the per-token pricing curves and assembles swap quotes. Every
//! function carries a contract over integer and sequence models.
//!
//! - [`math`]: `mul_div` and the conversions between amounts and value.
//! - [`bytes`]: little-endian fields at fixed offsets.
//! - [`accounts`]: the account records and their decoders.
//! - [`encode`]: the encoders, and the round trip through the decoders.
//! - [`oracle`]: oracle normalisation.
//! - [`token_swap`]: the curve walkers for selling and buying.
//! - [`monotonic`]: monotonicity of the curve walkers.
//! - [`quote`]: quote assembly and weight-band admission.
//! - [`snapshot`]: assembly of a snapshot from decoded accounts.
//! - [`percent`]: the decimal fee percentage.
//! - [`error`]: the failures.
//!
//! No function panics, and none fails on arithmetic. A product is taken
//! in 128 bits; a quotient, a sum of values or a sum of amounts that
//! does not fit in 64 bits is reported as zero. Where an amount or a
//! price is capped instead, the function that does so says it.

pub mod accounts;
pub mod bytes;
pub mod encode;
pub mod error;
pub mod math;
pub mod monotonic;
pub mod oracle;
pub mod percent;
pub mod quote;
pub mod snapshot;
pub mod token_swap;
