//! The stable error families and the total mapping onto them.
//!
//! Each enum here is a closed counterpart of one upstream error family:
//! safe to match exhaustively on the far side of a foreign-function
//! boundary, with payloads reduced to plain values. Each family's
//! `from_upstream` function is the translation itself; it is total over
//! the upstream image, never fails, and sends every cause the table does
//! not name to the family's single catch-all variant. Only the variant
//! tags are a stable contract; text payloads are display output meant for
//! humans.

use vstd::prelude::*;

use crate::text::spec_decimal;
use crate::text::spec_lower_hex;
use crate::text::decimal_string;
use crate::text::lower_hex_string;
use crate::upstream::UpstreamAddressParseError;
use crate::upstream::UpstreamEncodeError;
use crate::upstream::UpstreamExtractTxError;
use crate::upstream::UpstreamFromScriptError;
use crate::upstream::UpstreamParseAmountError;
use crate::upstream::UpstreamPsbtError;
use crate::upstream::UpstreamPsbtParseError;

verus! {

/// Stable counterpart of the upstream address-parse error.
#[derive(Clone, Debug, PartialEq, Eq)]
pub enum AddressParseError {
    /// Base58 address encoding error.
    Base58,
    /// Bech32 address encoding error.
    Bech32,
    /// Witness-version conversion or parsing error.
    WitnessVersion { error_message: String },
    /// Witness program error.
    WitnessProgram { error_message: String },
    /// Tried to parse an unknown human-readable part.
    UnknownHrp,
    /// Legacy address base58 string too long.
    LegacyAddressTooLong,
    /// Invalid base58 payload length of a legacy address.
    InvalidBase58PayloadLength,
    /// Invalid legacy prefix in base58 data.
    InvalidLegacyPrefix,
    /// Network validation error.
    NetworkValidation,
    /// Catch-all for upstream causes not named above.
    OtherAddressParseErr,
}

/// The one way building a fee rate can fail.
#[derive(Clone, Debug, PartialEq, Eq)]
pub enum FeeRateError {
    /// Arithmetic overflow while converting to weight units.
    ArithmeticOverflow,
}

/// Stable counterpart of the upstream script-to-address conversion error.
#[derive(Clone, Debug, PartialEq, Eq)]
pub enum FromScriptError {
    /// The script is not a p2pkh, p2sh or witness program.
    UnrecognizedScript,
    /// Witness program error.
    WitnessProgram { error_message: String },
    /// Witness-version construction error.
    WitnessVersion { error_message: String },
    /// Catch-all for upstream causes not named above.
    OtherFromScriptErr,
}

/// Stable counterpart of the upstream amount-parse error.
#[derive(Clone, Debug, PartialEq, Eq)]
pub enum ParseAmountError {
    /// The amount is out of range.
    OutOfRange,
    /// The amount has a too high precision.
    TooPrecise,
    /// The input has too few digits.
    MissingDigits,
    /// The input is too large.
    InputTooLarge,
    /// The input holds an invalid character.
    InvalidCharacter { error_message: String },
    /// Catch-all for upstream causes not named above.
    OtherParseAmountErr,
}

/// Stable counterpart of the upstream consensus-encoding error.
#[derive(Clone, Debug, PartialEq, Eq)]
pub enum EncodeError {
    /// I/O error.
    Io,
    /// Allocation of an oversized vector.
    OversizedVectorAllocation,
    /// Invalid checksum; both checksums as lowercase hex text.
    InvalidChecksum { expected: String, actual: String },
    /// Non-minimal variable-length integer.
    NonMinimalVarInt,
    /// Parse failed.
    ParseFailed,
    /// Unsupported segwit flag byte, kept verbatim.
    UnsupportedSegwitFlag { flag: u8 },
    /// Catch-all for upstream causes not named above.
    OtherEncodeErr,
}

/// Stable counterpart of the upstream PSBT error.
#[derive(Clone, Debug, PartialEq, Eq)]
pub enum PsbtError {
    /// Invalid magic.
    InvalidMagic,
    /// UTXO information is not present in the PSBT.
    MissingUtxo,
    /// Invalid separator.
    InvalidSeparator,
    /// Output index out of bounds of the non-witness script output array.
    PsbtUtxoOutOfBounds,
    /// Invalid key.
    InvalidKey { key: String },
    /// Non-proprietary key where a proprietary key was expected.
    InvalidProprietaryKey,
    /// Duplicate key.
    DuplicateKey { key: String },
    /// The unsigned transaction has script sigs.
    UnsignedTxHasScriptSigs,
    /// The unsigned transaction has script witnesses.
    UnsignedTxHasScriptWitnesses,
    /// A PSBT must have an unsigned transaction.
    MustHaveUnsignedTx,
    /// No more key-value pairs for this PSBT map.
    NoMorePairs,
    /// Different unsigned transaction.
    UnexpectedUnsignedTx,
    /// Non-standard sighash type, kept verbatim.
    NonStandardSighashType { sighash: u32 },
    /// Invalid hash when parsing a slice.
    InvalidHash { hash: String },
    /// The preimage does not match the paired hash.
    InvalidPreimageHashPair,
    /// Combine conflict on a global extended public key.
    CombineInconsistentKeySources { xpub: String },
    /// Nested consensus-encoding error.
    ConsensusEncoding { encoding_error: String },
    /// The PSBT has a negative fee.
    NegativeFee,
    /// Integer overflow in the fee calculation.
    FeeOverflow,
    /// Invalid public key.
    InvalidPublicKey { error_message: String },
    /// Invalid secp256k1 public key.
    InvalidSecp256k1PublicKey { secp256k1_error: String },
    /// Invalid x-only public key.
    InvalidXOnlyPublicKey,
    /// Invalid ECDSA signature.
    InvalidEcdsaSignature { error_message: String },
    /// Invalid taproot signature.
    InvalidTaprootSignature { error_message: String },
    /// Invalid control block.
    InvalidControlBlock,
    /// Invalid leaf version.
    InvalidLeafVersion,
    /// Taproot error.
    Taproot,
    /// Taproot tree error.
    TapTree { error_message: String },
    /// Extended public key error.
    XPubKey,
    /// PSBT version error.
    Version { error_message: String },
    /// Data not consumed entirely when explicitly deserializing.
    PartialDataConsumption,
    /// I/O error.
    Io { error_message: String },
    /// Catch-all for upstream causes not named above.
    OtherPsbtErr,
}

/// Stable counterpart of the upstream PSBT base64-string parse error.
///
/// This family has no catch-all: following the upstream library, the two
/// causes are treated as the complete set.
#[derive(Clone, Debug, PartialEq, Eq)]
pub enum PsbtParseError {
    /// Error in the internal PSBT data structure.
    PsbtEncoding { error_message: String },
    /// Error in the PSBT base64 encoding.
    Base64Encoding { error_message: String },
}

/// Stable counterpart of the upstream transaction-extraction error.
#[derive(Clone, Debug, PartialEq, Eq)]
pub enum ExtractTxError {
    /// The fee rate is absurdly high; the rate as decimal text.
    AbsurdFeeRate { fee_rate: String },
    /// One or more inputs are missing value information.
    MissingInputValue,
    /// The inputs carry less value than the outputs send.
    SendingTooMuch,
    /// Catch-all for upstream causes not named above.
    OtherExtractTxErr,
}

impl AddressParseError {
    /// The address-parse mapping table.
    pub open spec fn spec_from_upstream(e: UpstreamAddressParseError) -> AddressParseError {
        match e {
            UpstreamAddressParseError::Base58 => AddressParseError::Base58,
            UpstreamAddressParseError::Bech32 => AddressParseError::Bech32,
            UpstreamAddressParseError::WitnessVersion { message } => (AddressParseError::WitnessVersion {
                error_message: message,
            }),
            UpstreamAddressParseError::WitnessProgram { message } => (AddressParseError::WitnessProgram {
                error_message: message,
            }),
            UpstreamAddressParseError::UnknownHrp => AddressParseError::UnknownHrp,
            UpstreamAddressParseError::LegacyAddressTooLong => AddressParseError::LegacyAddressTooLong,
            UpstreamAddressParseError::InvalidBase58PayloadLength => AddressParseError::InvalidBase58PayloadLength,
            UpstreamAddressParseError::InvalidLegacyPrefix => AddressParseError::InvalidLegacyPrefix,
            UpstreamAddressParseError::NetworkValidation => AddressParseError::NetworkValidation,
            UpstreamAddressParseError::Unrecognized => AddressParseError::OtherAddressParseErr,
        }
    }

    /// Translates an upstream address-parse failure; total and infallible.
    pub fn from_upstream(e: UpstreamAddressParseError) -> (r: AddressParseError)
        ensures
            r == AddressParseError::spec_from_upstream(e),
    {
        match e {
            UpstreamAddressParseError::Base58 => AddressParseError::Base58,
            UpstreamAddressParseError::Bech32 => AddressParseError::Bech32,
            UpstreamAddressParseError::WitnessVersion { message } => AddressParseError::WitnessVersion {
                error_message: message,
            },
            UpstreamAddressParseError::WitnessProgram { message } => AddressParseError::WitnessProgram {
                error_message: message,
            },
            UpstreamAddressParseError::UnknownHrp => AddressParseError::UnknownHrp,
            UpstreamAddressParseError::LegacyAddressTooLong => AddressParseError::LegacyAddressTooLong,
            UpstreamAddressParseError::InvalidBase58PayloadLength => AddressParseError::InvalidBase58PayloadLength,
            UpstreamAddressParseError::InvalidLegacyPrefix => AddressParseError::InvalidLegacyPrefix,
            UpstreamAddressParseError::NetworkValidation => AddressParseError::NetworkValidation,
            UpstreamAddressParseError::Unrecognized => AddressParseError::OtherAddressParseErr,
        }
    }
}

/// Any upstream address-parse cause that the table does not name collapses
/// to the family's catch-all variant.
pub proof fn lemma_address_catch_all(e: UpstreamAddressParseError)
    requires
        e is Unrecognized,
    ensures
        AddressParseError::spec_from_upstream(e) is OtherAddressParseErr,
{
}

/// The address-parse mapping preserves sub-error text verbatim.
pub proof fn lemma_address_text_fidelity(e: UpstreamAddressParseError)
    ensures
        (e matches UpstreamAddressParseError::WitnessVersion { message } ==>
            AddressParseError::spec_from_upstream(e) == (AddressParseError::WitnessVersion {
                error_message: message,
            })),
        (e matches UpstreamAddressParseError::WitnessProgram { message } ==>
            AddressParseError::spec_from_upstream(e) == (AddressParseError::WitnessProgram {
                error_message: message,
            })),
{
}

/// The address-parse mapping is deterministic: equal upstream inputs give
/// equal stable outputs.
pub proof fn lemma_address_deterministic(a: UpstreamAddressParseError, b: UpstreamAddressParseError)
    requires
        a == b,
    ensures
        AddressParseError::spec_from_upstream(a) == AddressParseError::spec_from_upstream(b),
{
}

impl FromScriptError {
    /// The script-to-address mapping table.
    pub open spec fn spec_from_upstream(e: UpstreamFromScriptError) -> FromScriptError {
        match e {
            UpstreamFromScriptError::UnrecognizedScript => FromScriptError::UnrecognizedScript,
            UpstreamFromScriptError::WitnessProgram { message } => (FromScriptError::WitnessProgram {
                error_message: message,
            }),
            UpstreamFromScriptError::WitnessVersion { message } => (FromScriptError::WitnessVersion {
                error_message: message,
            }),
            UpstreamFromScriptError::Unrecognized => FromScriptError::OtherFromScriptErr,
        }
    }

    /// Translates an upstream script-to-address failure; total and
    /// infallible.
    pub fn from_upstream(e: UpstreamFromScriptError) -> (r: FromScriptError)
        ensures
            r == FromScriptError::spec_from_upstream(e),
    {
        match e {
            UpstreamFromScriptError::UnrecognizedScript => FromScriptError::UnrecognizedScript,
            UpstreamFromScriptError::WitnessProgram { message } => FromScriptError::WitnessProgram {
                error_message: message,
            },
            UpstreamFromScriptError::WitnessVersion { message } => FromScriptError::WitnessVersion {
                error_message: message,
            },
            UpstreamFromScriptError::Unrecognized => FromScriptError::OtherFromScriptErr,
        }
    }
}

/// Any upstream script-to-address cause that the table does not name
/// collapses to the family's catch-all variant.
pub proof fn lemma_from_script_catch_all(e: UpstreamFromScriptError)
    requires
        e is Unrecognized,
    ensures
        FromScriptError::spec_from_upstream(e) is OtherFromScriptErr,
{
}

/// The script-to-address mapping preserves sub-error text verbatim.
pub proof fn lemma_from_script_text_fidelity(e: UpstreamFromScriptError)
    ensures
        (e matches UpstreamFromScriptError::WitnessProgram { message } ==>
            FromScriptError::spec_from_upstream(e) == (FromScriptError::WitnessProgram {
                error_message: message,
            })),
        (e matches UpstreamFromScriptError::WitnessVersion { message } ==>
            FromScriptError::spec_from_upstream(e) == (FromScriptError::WitnessVersion {
                error_message: message,
            })),
{
}

/// The script-to-address mapping is deterministic.
pub proof fn lemma_from_script_deterministic(a: UpstreamFromScriptError, b: UpstreamFromScriptError)
    requires
        a == b,
    ensures
        FromScriptError::spec_from_upstream(a) == FromScriptError::spec_from_upstream(b),
{
}

impl ParseAmountError {
    /// The amount-parse mapping table.
    pub open spec fn spec_from_upstream(e: UpstreamParseAmountError) -> ParseAmountError {
        match e {
            UpstreamParseAmountError::OutOfRange => ParseAmountError::OutOfRange,
            UpstreamParseAmountError::TooPrecise => ParseAmountError::TooPrecise,
            UpstreamParseAmountError::MissingDigits => ParseAmountError::MissingDigits,
            UpstreamParseAmountError::InputTooLarge => ParseAmountError::InputTooLarge,
            UpstreamParseAmountError::InvalidCharacter { message } => (ParseAmountError::InvalidCharacter {
                error_message: message,
            }),
            UpstreamParseAmountError::Unrecognized => ParseAmountError::OtherParseAmountErr,
        }
    }

    /// Translates an upstream amount-parse failure; total and infallible.
    pub fn from_upstream(e: UpstreamParseAmountError) -> (r: ParseAmountError)
        ensures
            r == ParseAmountError::spec_from_upstream(e),
    {
        match e {
            UpstreamParseAmountError::OutOfRange => ParseAmountError::OutOfRange,
            UpstreamParseAmountError::TooPrecise => ParseAmountError::TooPrecise,
            UpstreamParseAmountError::MissingDigits => ParseAmountError::MissingDigits,
            UpstreamParseAmountError::InputTooLarge => ParseAmountError::InputTooLarge,
            UpstreamParseAmountError::InvalidCharacter { message } => ParseAmountError::InvalidCharacter {
                error_message: message,
            },
            UpstreamParseAmountError::Unrecognized => ParseAmountError::OtherParseAmountErr,
        }
    }
}

/// Any upstream amount-parse cause that the table does not name collapses
/// to the family's catch-all variant.
pub proof fn lemma_amount_catch_all(e: UpstreamParseAmountError)
    requires
        e is Unrecognized,
    ensures
        ParseAmountError::spec_from_upstream(e) is OtherParseAmountErr,
{
}

/// The amount-parse mapping preserves the invalid-character text verbatim.
pub proof fn lemma_amount_text_fidelity(e: UpstreamParseAmountError)
    ensures
        e matches UpstreamParseAmountError::InvalidCharacter { message } ==>
            ParseAmountError::spec_from_upstream(e) == (ParseAmountError::InvalidCharacter {
                error_message: message,
            }),
{
}

/// The amount-parse mapping is deterministic.
pub proof fn lemma_amount_deterministic(a: UpstreamParseAmountError, b: UpstreamParseAmountError)
    requires
        a == b,
    ensures
        ParseAmountError::spec_from_upstream(a) == ParseAmountError::spec_from_upstream(b),
{
}

impl PsbtError {
    /// The PSBT mapping table, the largest family.
    pub open spec fn spec_from_upstream(e: UpstreamPsbtError) -> PsbtError {
        match e {
            UpstreamPsbtError::InvalidMagic => PsbtError::InvalidMagic,
            UpstreamPsbtError::MissingUtxo => PsbtError::MissingUtxo,
            UpstreamPsbtError::InvalidSeparator => PsbtError::InvalidSeparator,
            UpstreamPsbtError::PsbtUtxoOutOfbounds => PsbtError::PsbtUtxoOutOfBounds,
            UpstreamPsbtError::InvalidKey { key } => (PsbtError::InvalidKey { key }),
            UpstreamPsbtError::InvalidProprietaryKey => PsbtError::InvalidProprietaryKey,
            UpstreamPsbtError::DuplicateKey { key } => (PsbtError::DuplicateKey { key }),
            UpstreamPsbtError::UnsignedTxHasScriptSigs => PsbtError::UnsignedTxHasScriptSigs,
            UpstreamPsbtError::UnsignedTxHasScriptWitnesses => PsbtError::UnsignedTxHasScriptWitnesses,
            UpstreamPsbtError::MustHaveUnsignedTx => PsbtError::MustHaveUnsignedTx,
            UpstreamPsbtError::NoMorePairs => PsbtError::NoMorePairs,
            UpstreamPsbtError::UnexpectedUnsignedTx => PsbtError::UnexpectedUnsignedTx,
            UpstreamPsbtError::NonStandardSighashType { sighash } => (PsbtError::NonStandardSighashType {
                sighash,
            }),
            UpstreamPsbtError::InvalidHash { hash } => (PsbtError::InvalidHash { hash }),
            UpstreamPsbtError::InvalidPreimageHashPair => PsbtError::InvalidPreimageHashPair,
            UpstreamPsbtError::CombineInconsistentKeySources { xpub } => (PsbtError::CombineInconsistentKeySources {
                xpub,
            }),
            UpstreamPsbtError::ConsensusEncoding { message } => (PsbtError::ConsensusEncoding {
                encoding_error: message,
            }),
            UpstreamPsbtError::NegativeFee => PsbtError::NegativeFee,
            UpstreamPsbtError::FeeOverflow => PsbtError::FeeOverflow,
            UpstreamPsbtError::InvalidPublicKey { message } => (PsbtError::InvalidPublicKey {
                error_message: message,
            }),
            UpstreamPsbtError::InvalidSecp256k1PublicKey { message } => (PsbtError::InvalidSecp256k1PublicKey {
                secp256k1_error: message,
            }),
            UpstreamPsbtError::InvalidXOnlyPublicKey => PsbtError::InvalidXOnlyPublicKey,
            UpstreamPsbtError::InvalidEcdsaSignature { message } => (PsbtError::InvalidEcdsaSignature {
                error_message: message,
            }),
            UpstreamPsbtError::InvalidTaprootSignature { message } => (PsbtError::InvalidTaprootSignature {
                error_message: message,
            }),
            UpstreamPsbtError::InvalidControlBlock => PsbtError::InvalidControlBlock,
            UpstreamPsbtError::InvalidLeafVersion => PsbtError::InvalidLeafVersion,
            UpstreamPsbtError::Taproot => PsbtError::Taproot,
            UpstreamPsbtError::TapTree { message } => (PsbtError::TapTree {
                error_message: message,
            }),
            UpstreamPsbtError::XPubKey => PsbtError::XPubKey,
            UpstreamPsbtError::Version { message } => (PsbtError::Version {
                error_message: message,
            }),
            UpstreamPsbtError::PartialDataConsumption => PsbtError::PartialDataConsumption,
            UpstreamPsbtError::Io { message } => (PsbtError::Io { error_message: message }),
            UpstreamPsbtError::Unrecognized => PsbtError::OtherPsbtErr,
        }
    }

    /// Translates an upstream PSBT failure; total and infallible.
    pub fn from_upstream(e: UpstreamPsbtError) -> (r: PsbtError)
        ensures
            r == PsbtError::spec_from_upstream(e),
    {
        match e {
            UpstreamPsbtError::InvalidMagic => PsbtError::InvalidMagic,
            UpstreamPsbtError::MissingUtxo => PsbtError::MissingUtxo,
            UpstreamPsbtError::InvalidSeparator => PsbtError::InvalidSeparator,
            UpstreamPsbtError::PsbtUtxoOutOfbounds => PsbtError::PsbtUtxoOutOfBounds,
            UpstreamPsbtError::InvalidKey { key } => PsbtError::InvalidKey { key },
            UpstreamPsbtError::InvalidProprietaryKey => PsbtError::InvalidProprietaryKey,
            UpstreamPsbtError::DuplicateKey { key } => PsbtError::DuplicateKey { key },
            UpstreamPsbtError::UnsignedTxHasScriptSigs => PsbtError::UnsignedTxHasScriptSigs,
            UpstreamPsbtError::UnsignedTxHasScriptWitnesses => PsbtError::UnsignedTxHasScriptWitnesses,
            UpstreamPsbtError::MustHaveUnsignedTx => PsbtError::MustHaveUnsignedTx,
            UpstreamPsbtError::NoMorePairs => PsbtError::NoMorePairs,
            UpstreamPsbtError::UnexpectedUnsignedTx => PsbtError::UnexpectedUnsignedTx,
            UpstreamPsbtError::NonStandardSighashType { sighash } => PsbtError::NonStandardSighashType {
                sighash,
            },
            UpstreamPsbtError::InvalidHash { hash } => PsbtError::InvalidHash { hash },
            UpstreamPsbtError::InvalidPreimageHashPair => PsbtError::InvalidPreimageHashPair,
            UpstreamPsbtError::CombineInconsistentKeySources { xpub } => PsbtError::CombineInconsistentKeySources {
                xpub,
            },
            UpstreamPsbtError::ConsensusEncoding { message } => PsbtError::ConsensusEncoding {
                encoding_error: message,
            },
            UpstreamPsbtError::NegativeFee => PsbtError::NegativeFee,
            UpstreamPsbtError::FeeOverflow => PsbtError::FeeOverflow,
            UpstreamPsbtError::InvalidPublicKey { message } => PsbtError::InvalidPublicKey {
                error_message: message,
            },
            UpstreamPsbtError::InvalidSecp256k1PublicKey { message } => PsbtError::InvalidSecp256k1PublicKey {
                secp256k1_error: message,
            },
            UpstreamPsbtError::InvalidXOnlyPublicKey => PsbtError::InvalidXOnlyPublicKey,
            UpstreamPsbtError::InvalidEcdsaSignature { message } => PsbtError::InvalidEcdsaSignature {
                error_message: message,
            },
            UpstreamPsbtError::InvalidTaprootSignature { message } => PsbtError::InvalidTaprootSignature {
                error_message: message,
            },
            UpstreamPsbtError::InvalidControlBlock => PsbtError::InvalidControlBlock,
            UpstreamPsbtError::InvalidLeafVersion => PsbtError::InvalidLeafVersion,
            UpstreamPsbtError::Taproot => PsbtError::Taproot,
            UpstreamPsbtError::TapTree { message } => PsbtError::TapTree { error_message: message },
            UpstreamPsbtError::XPubKey => PsbtError::XPubKey,
            UpstreamPsbtError::Version { message } => PsbtError::Version { error_message: message },
            UpstreamPsbtError::PartialDataConsumption => PsbtError::PartialDataConsumption,
            UpstreamPsbtError::Io { message } => PsbtError::Io { error_message: message },
            UpstreamPsbtError::Unrecognized => PsbtError::OtherPsbtErr,
        }
    }
}

/// Any upstream PSBT cause that the table does not name collapses to the
/// family's catch-all variant.
pub proof fn lemma_psbt_catch_all(e: UpstreamPsbtError)
    requires
        e is Unrecognized,
    ensures
        PsbtError::spec_from_upstream(e) is OtherPsbtErr,
{
}

/// The PSBT mapping preserves the non-standard sighash value verbatim.
pub proof fn lemma_psbt_field_fidelity(e: UpstreamPsbtError)
    ensures
        e matches UpstreamPsbtError::NonStandardSighashType { sighash } ==>
            PsbtError::spec_from_upstream(e) == (PsbtError::NonStandardSighashType { sighash }),
{
}

/// The PSBT mapping preserves sub-error and key text verbatim.
pub proof fn lemma_psbt_text_fidelity(e: UpstreamPsbtError)
    ensures
        (e matches UpstreamPsbtError::InvalidKey { key } ==> PsbtError::spec_from_upstream(e)
            == (PsbtError::InvalidKey { key })),
        (e matches UpstreamPsbtError::DuplicateKey { key } ==> PsbtError::spec_from_upstream(e)
            == (PsbtError::DuplicateKey { key })),
        (e matches UpstreamPsbtError::InvalidHash { hash } ==> PsbtError::spec_from_upstream(e)
            == (PsbtError::InvalidHash { hash })),
        (e matches UpstreamPsbtError::CombineInconsistentKeySources { xpub } ==>
            PsbtError::spec_from_upstream(e) == (PsbtError::CombineInconsistentKeySources { xpub })),
        (e matches UpstreamPsbtError::ConsensusEncoding { message } ==>
            PsbtError::spec_from_upstream(e) == (PsbtError::ConsensusEncoding {
                encoding_error: message,
            })),
        (e matches UpstreamPsbtError::InvalidPublicKey { message } ==>
            PsbtError::spec_from_upstream(e) == (PsbtError::InvalidPublicKey {
                error_message: message,
            })),
        (e matches UpstreamPsbtError::InvalidSecp256k1PublicKey { message } ==>
            PsbtError::spec_from_upstream(e) == (PsbtError::InvalidSecp256k1PublicKey {
                secp256k1_error: message,
            })),
        (e matches UpstreamPsbtError::InvalidEcdsaSignature { message } ==>
            PsbtError::spec_from_upstream(e) == (PsbtError::InvalidEcdsaSignature {
                error_message: message,
            })),
        (e matches UpstreamPsbtError::InvalidTaprootSignature { message } ==>
            PsbtError::spec_from_upstream(e) == (PsbtError::InvalidTaprootSignature {
                error_message: message,
            })),
        (e matches UpstreamPsbtError::TapTree { message } ==> PsbtError::spec_from_upstream(e)
            == (PsbtError::TapTree { error_message: message })),
        (e matches UpstreamPsbtError::Version { message } ==> PsbtError::spec_from_upstream(e)
            == (PsbtError::Version { error_message: message })),
        (e matches UpstreamPsbtError::Io { message } ==> PsbtError::spec_from_upstream(e)
            == (PsbtError::Io { error_message: message })),
{
}

/// The PSBT mapping is deterministic.
pub proof fn lemma_psbt_deterministic(a: UpstreamPsbtError, b: UpstreamPsbtError)
    requires
        a == b,
    ensures
        PsbtError::spec_from_upstream(a) == PsbtError::spec_from_upstream(b),
{
}

impl PsbtParseError {
    /// The PSBT string-parse mapping table. This family has no catch-all:
    /// both upstream causes are named.
    pub open spec fn spec_from_upstream(e: UpstreamPsbtParseError) -> PsbtParseError {
        match e {
            UpstreamPsbtParseError::PsbtEncoding { message } => (PsbtParseError::PsbtEncoding {
                error_message: message,
            }),
            UpstreamPsbtParseError::Base64Encoding { message } => (PsbtParseError::Base64Encoding {
                error_message: message,
            }),
        }
    }

    /// Translates an upstream PSBT string-parse failure; total and
    /// infallible over the two named causes.
    pub fn from_upstream(e: UpstreamPsbtParseError) -> (r: PsbtParseError)
        ensures
            r == PsbtParseError::spec_from_upstream(e),
    {
        match e {
            UpstreamPsbtParseError::PsbtEncoding { message } => PsbtParseError::PsbtEncoding {
                error_message: message,
            },
            UpstreamPsbtParseError::Base64Encoding { message } => PsbtParseError::Base64Encoding {
                error_message: message,
            },
        }
    }
}

/// The PSBT string-parse mapping preserves sub-error text verbatim.
pub proof fn lemma_psbt_parse_text_fidelity(e: UpstreamPsbtParseError)
    ensures
        (e matches UpstreamPsbtParseError::PsbtEncoding { message } ==>
            PsbtParseError::spec_from_upstream(e) == (PsbtParseError::PsbtEncoding {
                error_message: message,
            })),
        (e matches UpstreamPsbtParseError::Base64Encoding { message } ==>
            PsbtParseError::spec_from_upstream(e) == (PsbtParseError::Base64Encoding {
                error_message: message,
            })),
{
}

/// The PSBT string-parse mapping is deterministic.
pub proof fn lemma_psbt_parse_deterministic(a: UpstreamPsbtParseError, b: UpstreamPsbtParseError)
    requires
        a == b,
    ensures
        PsbtParseError::spec_from_upstream(a) == PsbtParseError::spec_from_upstream(b),
{
}

/// The consensus-encoding mapping table, as a relation: the checksum bytes
/// are rendered as lowercase hex text, so the table pins the stable value
/// up to the text's characters.
pub open spec fn encode_maps_to(e: UpstreamEncodeError, r: EncodeError) -> bool {
    match e {
        UpstreamEncodeError::Io => r == EncodeError::Io,
        UpstreamEncodeError::OversizedVectorAllocation => r == EncodeError::OversizedVectorAllocation,
        UpstreamEncodeError::InvalidChecksum { expected, actual } => {
            &&& r matches EncodeError::InvalidChecksum { expected: expected_hex, actual: actual_hex }
            &&& expected_hex@ == spec_lower_hex(expected@)
            &&& actual_hex@ == spec_lower_hex(actual@)
        },
        UpstreamEncodeError::NonMinimalVarInt => r == EncodeError::NonMinimalVarInt,
        UpstreamEncodeError::ParseFailed => r == EncodeError::ParseFailed,
        UpstreamEncodeError::UnsupportedSegwitFlag { flag } => r == (EncodeError::UnsupportedSegwitFlag {
            flag,
        }),
        UpstreamEncodeError::Unrecognized => r == EncodeError::OtherEncodeErr,
    }
}

impl EncodeError {
    /// Translates an upstream consensus-encoding failure; total and
    /// infallible. A checksum mismatch keeps both checksums as lowercase
    /// hex text; the unsupported segwit flag byte is kept verbatim.
    pub fn from_upstream(e: UpstreamEncodeError) -> (r: EncodeError)
        ensures
            encode_maps_to(e, r),
    {
        match e {
            UpstreamEncodeError::Io => EncodeError::Io,
            UpstreamEncodeError::OversizedVectorAllocation => EncodeError::OversizedVectorAllocation,
            UpstreamEncodeError::InvalidChecksum { expected, actual } => EncodeError::InvalidChecksum {
                expected: lower_hex_string(expected.as_slice()),
                actual: lower_hex_string(actual.as_slice()),
            },
            UpstreamEncodeError::NonMinimalVarInt => EncodeError::NonMinimalVarInt,
            UpstreamEncodeError::ParseFailed => EncodeError::ParseFailed,
            UpstreamEncodeError::UnsupportedSegwitFlag { flag } => EncodeError::UnsupportedSegwitFlag {
                flag,
            },
            UpstreamEncodeError::Unrecognized => EncodeError::OtherEncodeErr,
        }
    }
}

/// Two stable consensus-encoding errors that agree observably: the same
/// variant, with text payloads equal character for character.
pub open spec fn encode_outputs_agree(r1: EncodeError, r2: EncodeError) -> bool {
    match (r1, r2) {
        (
            EncodeError::InvalidChecksum { expected: expected1, actual: actual1 },
            EncodeError::InvalidChecksum { expected: expected2, actual: actual2 },
        ) => expected1@ == expected2@ && actual1@ == actual2@,
        _ => r1 == r2,
    }
}

/// The consensus-encoding mapping is deterministic: one upstream input
/// admits only observably equal stable outputs.
pub proof fn lemma_encode_deterministic(e: UpstreamEncodeError, r1: EncodeError, r2: EncodeError)
    requires
        encode_maps_to(e, r1),
        encode_maps_to(e, r2),
    ensures
        encode_outputs_agree(r1, r2),
{
}

/// Any upstream consensus-encoding cause that the table does not name
/// collapses to the family's catch-all variant.
pub proof fn lemma_encode_catch_all(e: UpstreamEncodeError, r: EncodeError)
    requires
        e is Unrecognized,
        encode_maps_to(e, r),
    ensures
        r is OtherEncodeErr,
{
}

/// The consensus-encoding mapping preserves the segwit flag byte verbatim.
pub proof fn lemma_encode_field_fidelity(e: UpstreamEncodeError, r: EncodeError)
    requires
        encode_maps_to(e, r),
    ensures
        e matches UpstreamEncodeError::UnsupportedSegwitFlag { flag } ==> r
            == (EncodeError::UnsupportedSegwitFlag { flag }),
{
}

/// The transaction-extraction mapping table, as a relation: the fee rate
/// is rendered as decimal text of its sat/kwu value, so the table pins the
/// stable value up to the text's characters.
pub open spec fn extract_tx_maps_to(e: UpstreamExtractTxError, r: ExtractTxError) -> bool {
    match e {
        UpstreamExtractTxError::AbsurdFeeRate { fee_rate } => {
            &&& r matches ExtractTxError::AbsurdFeeRate { fee_rate: rendered }
            &&& rendered@ == spec_decimal(fee_rate.spec_sat_per_kwu() as nat)
        },
        UpstreamExtractTxError::MissingInputValue => r == ExtractTxError::MissingInputValue,
        UpstreamExtractTxError::SendingTooMuch => r == ExtractTxError::SendingTooMuch,
        UpstreamExtractTxError::Unrecognized => r == ExtractTxError::OtherExtractTxErr,
    }
}

impl ExtractTxError {
    /// Translates an upstream transaction-extraction failure; total and
    /// infallible. An absurd fee rate is kept as the decimal text of its
    /// sat/kwu value.
    pub fn from_upstream(e: UpstreamExtractTxError) -> (r: ExtractTxError)
        ensures
            extract_tx_maps_to(e, r),
    {
        match e {
            UpstreamExtractTxError::AbsurdFeeRate { fee_rate } => ExtractTxError::AbsurdFeeRate {
                fee_rate: decimal_string(fee_rate.to_sat_per_kwu()),
            },
            UpstreamExtractTxError::MissingInputValue => ExtractTxError::MissingInputValue,
            UpstreamExtractTxError::SendingTooMuch => ExtractTxError::SendingTooMuch,
            UpstreamExtractTxError::Unrecognized => ExtractTxError::OtherExtractTxErr,
        }
    }
}

/// Two stable transaction-extraction errors that agree observably: the
/// same variant, with text payloads equal character for character.
pub open spec fn extract_tx_outputs_agree(r1: ExtractTxError, r2: ExtractTxError) -> bool {
    match (r1, r2) {
        (
            ExtractTxError::AbsurdFeeRate { fee_rate: rendered1 },
            ExtractTxError::AbsurdFeeRate { fee_rate: rendered2 },
        ) => rendered1@ == rendered2@,
        _ => r1 == r2,
    }
}

/// The transaction-extraction mapping is deterministic: one upstream input
/// admits only observably equal stable outputs.
pub proof fn lemma_extract_tx_deterministic(
    e: UpstreamExtractTxError,
    r1: ExtractTxError,
    r2: ExtractTxError,
)
    requires
        extract_tx_maps_to(e, r1),
        extract_tx_maps_to(e, r2),
    ensures
        extract_tx_outputs_agree(r1, r2),
{
}

/// Any upstream transaction-extraction cause that the table does not name
/// collapses to the family's catch-all variant.
pub proof fn lemma_extract_tx_catch_all(e: UpstreamExtractTxError, r: ExtractTxError)
    requires
        e is Unrecognized,
        extract_tx_maps_to(e, r),
    ensures
        r is OtherExtractTxErr,
{
}

} // verus!
