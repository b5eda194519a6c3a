//! Tests for the consensus-encoding and transaction-extraction families:
//! every variant of both mapping tables, the catch-alls, determinism, the
//! checksum hex rendering and the fee-rate decimal rendering.

use bitcoin_ffi::error::EncodeError;
use bitcoin_ffi::error::ExtractTxError;
use bitcoin_ffi::fee_rate::FeeRate;
use bitcoin_ffi::upstream::UpstreamEncodeError;
use bitcoin_ffi::upstream::UpstreamExtractTxError;

#[test]
fn encode_unit_variants_map_one_to_one() {
    assert_eq!(EncodeError::from_upstream(UpstreamEncodeError::Io), EncodeError::Io);
    assert_eq!(
        EncodeError::from_upstream(UpstreamEncodeError::OversizedVectorAllocation),
        EncodeError::OversizedVectorAllocation
    );
    assert_eq!(
        EncodeError::from_upstream(UpstreamEncodeError::NonMinimalVarInt),
        EncodeError::NonMinimalVarInt
    );
    assert_eq!(
        EncodeError::from_upstream(UpstreamEncodeError::ParseFailed),
        EncodeError::ParseFailed
    );
}

#[test]
fn encode_checksum_mismatch_renders_lowercase_hex() {
    let mapped = EncodeError::from_upstream(UpstreamEncodeError::InvalidChecksum {
        expected: [0xde, 0xad, 0xbe, 0xef],
        actual: [0xfe, 0xed, 0xfa, 0xce],
    });
    assert_eq!(
        mapped,
        EncodeError::InvalidChecksum {
            expected: String::from("deadbeef"),
            actual: String::from("feedface"),
        }
    );
}

#[test]
fn encode_segwit_flag_kept_verbatim() {
    let mapped =
        EncodeError::from_upstream(UpstreamEncodeError::UnsupportedSegwitFlag { flag: 0x99 });
    assert_eq!(mapped, EncodeError::UnsupportedSegwitFlag { flag: 0x99 });
}

#[test]
fn encode_catch_all_reachable() {
    assert_eq!(
        EncodeError::from_upstream(UpstreamEncodeError::Unrecognized),
        EncodeError::OtherEncodeErr
    );
}

#[test]
fn encode_mapping_deterministic() {
    let e = UpstreamEncodeError::InvalidChecksum {
        expected: [0x00, 0x01, 0x0a, 0xff],
        actual: [0x10, 0x20, 0x30, 0x40],
    };
    assert_eq!(EncodeError::from_upstream(e.clone()), EncodeError::from_upstream(e));
}

#[test]
fn extract_tx_absurd_fee_rate_renders_decimal_of_sat_per_kwu() {
    // The upstream fee-rate display (in its plain form) is the decimal of
    // the sat/kwu value; the rendered text must match it exactly.
    let upstream_rate = bitcoin::FeeRate::from_sat_per_kwu(25_000);
    let mapped = ExtractTxError::from_upstream(UpstreamExtractTxError::AbsurdFeeRate {
        fee_rate: FeeRate::from_sat_per_kwu(25_000),
    });
    assert_eq!(
        mapped,
        ExtractTxError::AbsurdFeeRate {
            fee_rate: upstream_rate.to_string(),
        }
    );
    assert_eq!(
        mapped,
        ExtractTxError::AbsurdFeeRate {
            fee_rate: String::from("25000"),
        }
    );
}

#[test]
fn extract_tx_unit_variants_map_one_to_one() {
    assert_eq!(
        ExtractTxError::from_upstream(UpstreamExtractTxError::MissingInputValue),
        ExtractTxError::MissingInputValue
    );
    assert_eq!(
        ExtractTxError::from_upstream(UpstreamExtractTxError::SendingTooMuch),
        ExtractTxError::SendingTooMuch
    );
}

#[test]
fn extract_tx_catch_all_reachable() {
    assert_eq!(
        ExtractTxError::from_upstream(UpstreamExtractTxError::Unrecognized),
        ExtractTxError::OtherExtractTxErr
    );
}

#[test]
fn extract_tx_mapping_deterministic() {
    let e = UpstreamExtractTxError::AbsurdFeeRate {
        fee_rate: FeeRate::from_sat_per_kwu(u64::MAX),
    };
    assert_eq!(
        ExtractTxError::from_upstream(e.clone()),
        ExtractTxError::from_upstream(e)
    );
}
