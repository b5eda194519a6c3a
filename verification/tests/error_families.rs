//! Tests for the address, script, amount, PSBT and PSBT string-parse
//! error families: every variant of each mapping table, the catch-all,
//! determinism, and text fidelity against real upstream display output.

use bitcoin_ffi::error::AddressParseError;
use bitcoin_ffi::error::FromScriptError;
use bitcoin_ffi::error::ParseAmountError;
use bitcoin_ffi::error::PsbtError;
use bitcoin_ffi::error::PsbtParseError;
use bitcoin_ffi::upstream::UpstreamAddressParseError;
use bitcoin_ffi::upstream::UpstreamFromScriptError;
use bitcoin_ffi::upstream::UpstreamParseAmountError;
use bitcoin_ffi::upstream::UpstreamPsbtError;
use bitcoin_ffi::upstream::UpstreamPsbtParseError;

fn witness_version_error_text() -> String {
    let err = <bitcoin::WitnessVersion as TryFrom<u8>>::try_from(17).unwrap_err();
    err.to_string()
}

#[test]
fn address_unit_variants_map_one_to_one() {
    assert_eq!(
        AddressParseError::from_upstream(UpstreamAddressParseError::Base58),
        AddressParseError::Base58
    );
    assert_eq!(
        AddressParseError::from_upstream(UpstreamAddressParseError::Bech32),
        AddressParseError::Bech32
    );
    assert_eq!(
        AddressParseError::from_upstream(UpstreamAddressParseError::UnknownHrp),
        AddressParseError::UnknownHrp
    );
    assert_eq!(
        AddressParseError::from_upstream(UpstreamAddressParseError::LegacyAddressTooLong),
        AddressParseError::LegacyAddressTooLong
    );
    assert_eq!(
        AddressParseError::from_upstream(UpstreamAddressParseError::InvalidBase58PayloadLength),
        AddressParseError::InvalidBase58PayloadLength
    );
    assert_eq!(
        AddressParseError::from_upstream(UpstreamAddressParseError::InvalidLegacyPrefix),
        AddressParseError::InvalidLegacyPrefix
    );
    assert_eq!(
        AddressParseError::from_upstream(UpstreamAddressParseError::NetworkValidation),
        AddressParseError::NetworkValidation
    );
}

#[test]
fn address_text_carrying_variants_keep_upstream_display() {
    let text = witness_version_error_text();
    assert_eq!(text, "invalid witness script version: 17");
    let mapped = AddressParseError::from_upstream(UpstreamAddressParseError::WitnessVersion {
        message: text.clone(),
    });
    assert_eq!(
        mapped,
        AddressParseError::WitnessVersion {
            error_message: text.clone(),
        }
    );
    let mapped = AddressParseError::from_upstream(UpstreamAddressParseError::WitnessProgram {
        message: text.clone(),
    });
    assert_eq!(mapped, AddressParseError::WitnessProgram { error_message: text });
}

#[test]
fn address_catch_all_reachable() {
    assert_eq!(
        AddressParseError::from_upstream(UpstreamAddressParseError::Unrecognized),
        AddressParseError::OtherAddressParseErr
    );
}

#[test]
fn address_mapping_deterministic() {
    let e = UpstreamAddressParseError::WitnessProgram {
        message: String::from("witness program error"),
    };
    assert_eq!(
        AddressParseError::from_upstream(e.clone()),
        AddressParseError::from_upstream(e)
    );
}

#[test]
fn from_script_variants_map_one_to_one() {
    assert_eq!(
        FromScriptError::from_upstream(UpstreamFromScriptError::UnrecognizedScript),
        FromScriptError::UnrecognizedScript
    );
    let text = witness_version_error_text();
    assert_eq!(
        FromScriptError::from_upstream(UpstreamFromScriptError::WitnessProgram {
            message: text.clone(),
        }),
        FromScriptError::WitnessProgram {
            error_message: text.clone(),
        }
    );
    assert_eq!(
        FromScriptError::from_upstream(UpstreamFromScriptError::WitnessVersion {
            message: text.clone(),
        }),
        FromScriptError::WitnessVersion { error_message: text }
    );
    assert_eq!(
        FromScriptError::from_upstream(UpstreamFromScriptError::Unrecognized),
        FromScriptError::OtherFromScriptErr
    );
}

#[test]
fn from_script_mapping_deterministic() {
    let e = UpstreamFromScriptError::WitnessVersion {
        message: witness_version_error_text(),
    };
    assert_eq!(
        FromScriptError::from_upstream(e.clone()),
        FromScriptError::from_upstream(e)
    );
}

#[test]
fn amount_variants_map_one_to_one() {
    assert_eq!(
        ParseAmountError::from_upstream(UpstreamParseAmountError::OutOfRange),
        ParseAmountError::OutOfRange
    );
    assert_eq!(
        ParseAmountError::from_upstream(UpstreamParseAmountError::TooPrecise),
        ParseAmountError::TooPrecise
    );
    assert_eq!(
        ParseAmountError::from_upstream(UpstreamParseAmountError::MissingDigits),
        ParseAmountError::MissingDigits
    );
    assert_eq!(
        ParseAmountError::from_upstream(UpstreamParseAmountError::InputTooLarge),
        ParseAmountError::InputTooLarge
    );
    assert_eq!(
        ParseAmountError::from_upstream(UpstreamParseAmountError::Unrecognized),
        ParseAmountError::OtherParseAmountErr
    );
}

#[test]
fn amount_invalid_character_keeps_upstream_display() {
    // The upstream invalid-character error is built by amount parsing; its
    // display text names the offending character.
    let err = bitcoin::Amount::from_str_in("1x2", bitcoin::amount::Denomination::Bitcoin)
        .unwrap_err();
    let text = match err {
        bitcoin::amount::ParseAmountError::InvalidCharacter(inner) => inner.to_string(),
        other => panic!("unexpected amount parse error: {}", other),
    };
    assert_eq!(text, "the character 'x' at position 1 is not a valid digit");
    let mapped = ParseAmountError::from_upstream(UpstreamParseAmountError::InvalidCharacter {
        message: text.clone(),
    });
    assert_eq!(mapped, ParseAmountError::InvalidCharacter { error_message: text });
}

#[test]
fn amount_mapping_deterministic() {
    let e = UpstreamParseAmountError::InvalidCharacter {
        message: String::from("the character 'x' at position 1 is not a valid digit"),
    };
    assert_eq!(
        ParseAmountError::from_upstream(e.clone()),
        ParseAmountError::from_upstream(e)
    );
}

#[test]
fn psbt_unit_variants_map_one_to_one() {
    let pairs = [
        (UpstreamPsbtError::InvalidMagic, PsbtError::InvalidMagic),
        (UpstreamPsbtError::MissingUtxo, PsbtError::MissingUtxo),
        (UpstreamPsbtError::InvalidSeparator, PsbtError::InvalidSeparator),
        (UpstreamPsbtError::PsbtUtxoOutOfbounds, PsbtError::PsbtUtxoOutOfBounds),
        (UpstreamPsbtError::InvalidProprietaryKey, PsbtError::InvalidProprietaryKey),
        (UpstreamPsbtError::UnsignedTxHasScriptSigs, PsbtError::UnsignedTxHasScriptSigs),
        (
            UpstreamPsbtError::UnsignedTxHasScriptWitnesses,
            PsbtError::UnsignedTxHasScriptWitnesses,
        ),
        (UpstreamPsbtError::MustHaveUnsignedTx, PsbtError::MustHaveUnsignedTx),
        (UpstreamPsbtError::NoMorePairs, PsbtError::NoMorePairs),
        (UpstreamPsbtError::UnexpectedUnsignedTx, PsbtError::UnexpectedUnsignedTx),
        (UpstreamPsbtError::InvalidPreimageHashPair, PsbtError::InvalidPreimageHashPair),
        (UpstreamPsbtError::NegativeFee, PsbtError::NegativeFee),
        (UpstreamPsbtError::FeeOverflow, PsbtError::FeeOverflow),
        (UpstreamPsbtError::InvalidXOnlyPublicKey, PsbtError::InvalidXOnlyPublicKey),
        (UpstreamPsbtError::InvalidControlBlock, PsbtError::InvalidControlBlock),
        (UpstreamPsbtError::InvalidLeafVersion, PsbtError::InvalidLeafVersion),
        (UpstreamPsbtError::Taproot, PsbtError::Taproot),
        (UpstreamPsbtError::XPubKey, PsbtError::XPubKey),
        (UpstreamPsbtError::PartialDataConsumption, PsbtError::PartialDataConsumption),
    ];
    for (upstream, expected) in pairs {
        assert_eq!(PsbtError::from_upstream(upstream), expected);
    }
}

#[test]
fn psbt_text_carrying_variants_keep_text() {
    let text = String::from("sub-error text");
    assert_eq!(
        PsbtError::from_upstream(UpstreamPsbtError::InvalidKey { key: text.clone() }),
        PsbtError::InvalidKey { key: text.clone() }
    );
    assert_eq!(
        PsbtError::from_upstream(UpstreamPsbtError::InvalidHash { hash: text.clone() }),
        PsbtError::InvalidHash { hash: text.clone() }
    );
    assert_eq!(
        PsbtError::from_upstream(UpstreamPsbtError::CombineInconsistentKeySources {
            xpub: text.clone(),
        }),
        PsbtError::CombineInconsistentKeySources { xpub: text.clone() }
    );
    assert_eq!(
        PsbtError::from_upstream(UpstreamPsbtError::ConsensusEncoding {
            message: text.clone(),
        }),
        PsbtError::ConsensusEncoding {
            encoding_error: text.clone(),
        }
    );
    assert_eq!(
        PsbtError::from_upstream(UpstreamPsbtError::InvalidPublicKey {
            message: text.clone(),
        }),
        PsbtError::InvalidPublicKey {
            error_message: text.clone(),
        }
    );
    assert_eq!(
        PsbtError::from_upstream(UpstreamPsbtError::InvalidSecp256k1PublicKey {
            message: text.clone(),
        }),
        PsbtError::InvalidSecp256k1PublicKey {
            secp256k1_error: text.clone(),
        }
    );
    assert_eq!(
        PsbtError::from_upstream(UpstreamPsbtError::InvalidEcdsaSignature {
            message: text.clone(),
        }),
        PsbtError::InvalidEcdsaSignature {
            error_message: text.clone(),
        }
    );
    assert_eq!(
        PsbtError::from_upstream(UpstreamPsbtError::InvalidTaprootSignature {
            message: text.clone(),
        }),
        PsbtError::InvalidTaprootSignature {
            error_message: text.clone(),
        }
    );
    assert_eq!(
        PsbtError::from_upstream(UpstreamPsbtError::TapTree { message: text.clone() }),
        PsbtError::TapTree {
            error_message: text.clone(),
        }
    );
    assert_eq!(
        PsbtError::from_upstream(UpstreamPsbtError::Version { message: text.clone() }),
        PsbtError::Version {
            error_message: text.clone(),
        }
    );
    assert_eq!(
        PsbtError::from_upstream(UpstreamPsbtError::Io { message: text.clone() }),
        PsbtError::Io { error_message: text }
    );
}

#[test]
fn psbt_sighash_value_kept_verbatim() {
    let mapped = PsbtError::from_upstream(UpstreamPsbtError::NonStandardSighashType {
        sighash: 0x55aa_1234,
    });
    assert_eq!(mapped, PsbtError::NonStandardSighashType { sighash: 0x55aa_1234 });
}

#[test]
fn psbt_duplicate_key_keeps_upstream_key_display() {
    let key = bitcoin::psbt::raw::Key {
        type_value: 0x01,
        key: vec![0x02],
    };
    let text = key.to_string();
    let mapped = PsbtError::from_upstream(UpstreamPsbtError::DuplicateKey { key: text.clone() });
    assert_eq!(mapped, PsbtError::DuplicateKey { key: text });
}

#[test]
fn psbt_unknown_upstream_variant_yields_catch_all() {
    assert_eq!(
        PsbtError::from_upstream(UpstreamPsbtError::Unrecognized),
        PsbtError::OtherPsbtErr
    );
}

#[test]
fn psbt_mapping_deterministic() {
    let e = UpstreamPsbtError::DuplicateKey {
        key: String::from("type: 0x1, key: 02"),
    };
    assert_eq!(PsbtError::from_upstream(e.clone()), PsbtError::from_upstream(e));
}

#[test]
fn psbt_parse_variants_keep_text() {
    let text = String::from("parse failure text");
    assert_eq!(
        PsbtParseError::from_upstream(UpstreamPsbtParseError::PsbtEncoding {
            message: text.clone(),
        }),
        PsbtParseError::PsbtEncoding {
            error_message: text.clone(),
        }
    );
    assert_eq!(
        PsbtParseError::from_upstream(UpstreamPsbtParseError::Base64Encoding {
            message: text.clone(),
        }),
        PsbtParseError::Base64Encoding { error_message: text }
    );
}

#[test]
fn psbt_parse_mapping_deterministic() {
    let e = UpstreamPsbtParseError::Base64Encoding {
        message: String::from("invalid padding"),
    };
    assert_eq!(
        PsbtParseError::from_upstream(e.clone()),
        PsbtParseError::from_upstream(e)
    );
}
