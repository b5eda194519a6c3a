//! Plain-valued images of the upstream library's error types.
//!
//! Each enum here mirrors one upstream error enum variant by variant, with
//! every payload already reduced to a plain value: a nested error becomes
//! its display text, a typed key its display text, numeric fields stay as
//! they are. The upstream enums are open (non-exhaustive): a variant that
//! this crate does not enumerate — including any the upstream library adds
//! in a later release — is represented by the family's `Unrecognized`
//! variant, so that the mapping in [`crate::error`] stays total.

use vstd::prelude::*;

use crate::fee_rate::FeeRate;

verus! {

/// Image of the upstream address-parse error.
#[derive(Clone, Debug, PartialEq, Eq)]
pub enum UpstreamAddressParseError {
    /// Base58 decoding failed; the upstream payload is not kept.
    Base58,
    /// Bech32 segwit decoding failed; the upstream payload is not kept.
    Bech32,
    /// Witness-version conversion or parsing failed; `message` is the
    /// display text of the upstream sub-error.
    WitnessVersion { message: String },
    /// The witness program was rejected; `message` is the display text of
    /// the upstream sub-error.
    WitnessProgram { message: String },
    /// The human-readable part is not a known one.
    UnknownHrp,
    /// The legacy address string is too long.
    LegacyAddressTooLong,
    /// The base58 payload of a legacy address has an invalid length.
    InvalidBase58PayloadLength,
    /// The base58 payload carries an invalid legacy address prefix.
    InvalidLegacyPrefix,
    /// The address does not belong to the required network.
    NetworkValidation,
    /// Any upstream variant not enumerated above.
    Unrecognized,
}

/// Image of the upstream script-to-address conversion error.
#[derive(Clone, Debug, PartialEq, Eq)]
pub enum UpstreamFromScriptError {
    /// The script is not a p2pkh, p2sh or witness program.
    UnrecognizedScript,
    /// The witness program was rejected; `message` is the display text of
    /// the upstream sub-error.
    WitnessProgram { message: String },
    /// Witness-version construction failed; `message` is the display text
    /// of the upstream sub-error.
    WitnessVersion { message: String },
    /// Any upstream variant not enumerated above.
    Unrecognized,
}

/// Image of the upstream amount-parse error.
#[derive(Clone, Debug, PartialEq, Eq)]
pub enum UpstreamParseAmountError {
    /// The amount is too big or too small.
    OutOfRange,
    /// The amount has higher precision than the type supports.
    TooPrecise,
    /// A digit was expected but not found.
    MissingDigits,
    /// The input string is too large.
    InputTooLarge,
    /// The input holds an invalid character; `message` is the display text
    /// of the upstream sub-error.
    InvalidCharacter { message: String },
    /// Any upstream variant not enumerated above.
    Unrecognized,
}

/// Image of the upstream consensus-encoding error.
#[derive(Clone, Debug, PartialEq, Eq)]
pub enum UpstreamEncodeError {
    /// Reading or writing failed; the upstream payload is not kept.
    Io,
    /// The oversized-allocation guard tripped.
    OversizedVectorAllocation,
    /// The checksum did not match; both checksums are kept as raw bytes.
    InvalidChecksum { expected: [u8; 4], actual: [u8; 4] },
    /// A variable-length integer was not minimally encoded.
    NonMinimalVarInt,
    /// Parsing failed; the upstream message is not kept.
    ParseFailed,
    /// The segwit flag byte is not supported; the byte is kept verbatim.
    UnsupportedSegwitFlag { flag: u8 },
    /// Any upstream variant not enumerated above.
    Unrecognized,
}

/// Image of the upstream PSBT error, the largest family.
#[derive(Clone, Debug, PartialEq, Eq)]
pub enum UpstreamPsbtError {
    /// The magic bytes are not the PSBT magic.
    InvalidMagic,
    /// Both the witness and the non-witness UTXO are missing.
    MissingUtxo,
    /// The separator byte is wrong.
    InvalidSeparator,
    /// An output index is out of bounds of the non-witness UTXO outputs.
    PsbtUtxoOutOfbounds,
    /// A known key does not follow the specification; `key` is the display
    /// text of the upstream raw key.
    InvalidKey { key: String },
    /// A non-proprietary key stood where a proprietary key was expected.
    InvalidProprietaryKey,
    /// A key occurs twice in a key-value map; `key` is the display text of
    /// the upstream raw key.
    DuplicateKey { key: String },
    /// The unsigned transaction has script sigs.
    UnsignedTxHasScriptSigs,
    /// The unsigned transaction has script witnesses.
    UnsignedTxHasScriptWitnesses,
    /// The PSBT has no unsigned transaction.
    MustHaveUnsignedTx,
    /// A key-value map has no more pairs.
    NoMorePairs,
    /// Combining with a PSBT built over a different unsigned transaction;
    /// the upstream payload is not kept.
    UnexpectedUnsignedTx,
    /// The sighash type is not a standard one; the value is kept verbatim.
    NonStandardSighashType { sighash: u32 },
    /// A hash could not be parsed from a slice; `hash` is the display text
    /// of the upstream sub-error.
    InvalidHash { hash: String },
    /// A preimage does not hash to the paired hash; the upstream payload
    /// is not kept.
    InvalidPreimageHashPair,
    /// Combining found inconsistent key sources for a global extended
    /// public key; `xpub` is the display text of that key.
    CombineInconsistentKeySources { xpub: String },
    /// A nested consensus-encoding failure; `message` is the display text
    /// of the upstream sub-error.
    ConsensusEncoding { message: String },
    /// The fee is negative.
    NegativeFee,
    /// The fee computation overflowed.
    FeeOverflow,
    /// A public key is invalid; `message` is the display text of the
    /// upstream sub-error.
    InvalidPublicKey { message: String },
    /// A secp256k1 public key is invalid; `message` is the display text of
    /// the upstream sub-error.
    InvalidSecp256k1PublicKey { message: String },
    /// An x-only public key is invalid.
    InvalidXOnlyPublicKey,
    /// An ECDSA signature is invalid; `message` is the display text of the
    /// upstream sub-error.
    InvalidEcdsaSignature { message: String },
    /// A taproot signature is invalid; `message` is the display text of
    /// the upstream sub-error.
    InvalidTaprootSignature { message: String },
    /// The control block is invalid.
    InvalidControlBlock,
    /// The leaf version is invalid.
    InvalidLeafVersion,
    /// A taproot failure; the upstream message is not kept.
    Taproot,
    /// Deserializing the taproot tree failed; `message` is the display
    /// text of the upstream sub-error.
    TapTree { message: String },
    /// A failure around an extended public key; the upstream message is
    /// not kept.
    XPubKey,
    /// A failure around the PSBT version; `message` is the upstream
    /// message.
    Version { message: String },
    /// Deserializing did not consume the data entirely.
    PartialDataConsumption,
    /// Reading or writing failed; `message` is the display text of the
    /// upstream sub-error.
    Io { message: String },
    /// Any upstream variant not enumerated above.
    Unrecognized,
}

/// Image of the upstream PSBT base64-string parse error.
///
/// The upstream enum is nominally open like the others, but this family
/// follows the upstream library in treating the two causes as the complete
/// set, so no `Unrecognized` variant exists here; the boundary that builds
/// these values asserts that expectation instead.
#[derive(Clone, Debug, PartialEq, Eq)]
pub enum UpstreamPsbtParseError {
    /// The internal PSBT data structure is malformed; `message` is the
    /// display text of the upstream sub-error.
    PsbtEncoding { message: String },
    /// The base64 framing is malformed; `message` is the display text of
    /// the upstream sub-error.
    Base64Encoding { message: String },
}

/// Image of the upstream transaction-extraction error.
#[derive(Clone, Debug, PartialEq, Eq)]
pub enum UpstreamExtractTxError {
    /// The fee rate is absurdly high; the rate is kept as a value.
    AbsurdFeeRate { fee_rate: FeeRate },
    /// One or more inputs lack value information.
    MissingInputValue,
    /// The inputs carry less value than the outputs send.
    SendingTooMuch,
    /// Any upstream variant not enumerated above.
    Unrecognized,
}

} // verus!
