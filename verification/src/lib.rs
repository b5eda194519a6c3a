//! A stable, exhaustively matchable error surface over an open upstream
//! error model.
//!
//! The upstream Bitcoin primitives library reports failures through
//! non-exhaustive enums that may gain variants in later releases and that
//! carry rich payloads (nested errors, typed keys, raw bytes). Callers on
//! the far side of a foreign-function boundary need the opposite: closed
//! enums whose payloads are plain values. This crate holds the translation
//! layer between the two, with the mapping of every family proved total
//! and deterministic, and the preserved fields proved carried over
//! verbatim.

use vstd::prelude::*;

pub mod error;
pub mod fee_rate;
pub mod text;
pub mod upstream;

pub use error::AddressParseError;
pub use error::EncodeError;
pub use error::ExtractTxError;
pub use error::FeeRateError;
pub use error::FromScriptError;
pub use error::ParseAmountError;
pub use error::PsbtError;
pub use error::PsbtParseError;
pub use fee_rate::FeeRate;

verus! {

/// The network a Bitcoin address or transaction belongs to.
///
/// Mirrors the networks the upstream library distinguishes; the variant set
/// may grow alongside it.
#[derive(Clone, Default)]
#[non_exhaustive]
pub enum Network {
    #[default]
    Bitcoin,
    Testnet,
    Testnet4,
    Signet,
    Regtest,
}

} // verus!
