use eas_client::encoding::{
    attestation_from_abi_outcome, bytes32_from_hex_outcome, hash_from_abi_outcome,
};
use eas_client::encoding::parse_bytes32;
use eas_client::error::{EasError, EncodingError};
use eas_client::{decode_attestation, decode_simple, encode_attestation, encode_simple};

fn sample_hash() -> String {
    format!("0x{}", "ab".repeat(32))
}

fn word(n: u64) -> Vec<u8> {
    let mut w = vec![0u8; 24];
    w.extend_from_slice(&n.to_be_bytes());
    w
}

#[test]
fn test_encode_decode_full_roundtrip() {
    let hash = sample_hash();
    let desc = "test attestation";
    let ts = 1700000000u64;

    let encoded = encode_attestation(&hash, desc, ts).unwrap();
    let (decoded_hash, decoded_desc, decoded_ts) = decode_attestation(&encoded).unwrap();

    assert_eq!(decoded_hash, hash);
    assert_eq!(decoded_desc, desc);
    assert_eq!(decoded_ts, ts);
}

#[test]
fn test_encode_decode_simple_roundtrip() {
    let hash = sample_hash();
    let encoded = encode_simple(&hash).unwrap();
    let decoded = decode_simple(&encoded).unwrap();
    assert_eq!(decoded, hash);
}

#[test]
fn test_invalid_hex() {
    let result = encode_simple("0xZZZZ");
    assert!(result.is_err());
}

#[test]
fn test_wrong_length() {
    let short = "0xabcd"; // only 2 bytes
    let result = encode_simple(short);
    assert!(result.is_err());
}

#[test]
fn test_no_prefix() {
    let hash = "ab".repeat(32);
    let encoded = encode_simple(&hash).unwrap();
    let decoded = decode_simple(&encoded).unwrap();
    assert_eq!(decoded, format!("0x{hash}"));
}

#[test]
fn full_payload_has_the_abi_layout() {
    let encoded = encode_attestation(&sample_hash(), "test attestation", 1700000000).unwrap();
    let mut expected = word(32);
    expected.extend_from_slice(&[0xab; 32]);
    expected.extend(word(96));
    expected.extend(word(1700000000));
    expected.extend(word(16));
    expected.extend_from_slice(b"test attestation");
    expected.extend_from_slice(&[0u8; 16]);
    assert_eq!(encoded, expected);
}

#[test]
fn empty_description_has_no_data_words() {
    let encoded = encode_attestation(&sample_hash(), "", 7).unwrap();
    let mut expected = word(32);
    expected.extend_from_slice(&[0xab; 32]);
    expected.extend(word(96));
    expected.extend(word(7));
    expected.extend(word(0));
    assert_eq!(encoded, expected);
    let (h, d, t) = decode_attestation(&encoded).unwrap();
    assert_eq!(h, sample_hash());
    assert_eq!(d, "");
    assert_eq!(t, 7);
}

#[test]
fn long_unicode_description_roundtrips() {
    let desc = "ünïcödé attestation spanning more than one ABI word of data";
    let encoded = encode_attestation(&sample_hash(), desc, u64::MAX).unwrap();
    assert_eq!(encoded.len(), 5 * 32 + desc.len().div_ceil(32) * 32);
    let (h, d, t) = decode_attestation(&encoded).unwrap();
    assert_eq!(h, sample_hash());
    assert_eq!(d, desc);
    assert_eq!(t, u64::MAX);
}

#[test]
fn simple_payload_is_the_hash() {
    let encoded = encode_simple(&sample_hash()).unwrap();
    assert_eq!(encoded, vec![0xab; 32]);
}

#[test]
fn uppercase_hash_decodes_as_lowercase() {
    let upper = format!("0x{}", "AB".repeat(32));
    let encoded = encode_simple(&upper).unwrap();
    assert_eq!(decode_simple(&encoded).unwrap(), sample_hash());
}

#[test]
fn decode_simple_of_any_word() {
    let data: Vec<u8> = (0u8..32).collect();
    let expected: String =
        format!("0x{}", data.iter().map(|b| format!("{b:02x}")).collect::<String>());
    assert_eq!(decode_simple(&data).unwrap(), expected);
}

#[test]
fn parse_bytes32_errors() {
    match parse_bytes32("0xZZZZ") {
        Err(EasError::Encoding(EncodingError::InvalidHex { details })) => {
            assert!(details.contains('Z'))
        }
        other => panic!("unexpected {other:?}"),
    }
    match parse_bytes32("0xabc") {
        Err(EasError::Encoding(EncodingError::InvalidHex { .. })) => {}
        other => panic!("unexpected {other:?}"),
    }
    match parse_bytes32("0xabcd") {
        Err(EasError::Encoding(EncodingError::InvalidDataLength { expected, actual })) => {
            assert_eq!(expected, 32);
            assert_eq!(actual, 2);
        }
        other => panic!("unexpected {other:?}"),
    }
    // Only a lowercase `0x` is stripped.
    assert!(parse_bytes32(&format!("0X{}", "ab".repeat(32))).is_err());
    assert_eq!(parse_bytes32(&sample_hash()).unwrap(), [0xab; 32]);
}

#[test]
fn decoding_garbage_fails() {
    match decode_attestation(&[1, 2, 3]) {
        Err(EasError::Encoding(EncodingError::AbiDecodingFailed { details })) => {
            assert!(!details.is_empty())
        }
        other => panic!("unexpected {other:?}"),
    }
    match decode_simple(&[0u8; 5]) {
        Err(EasError::Encoding(EncodingError::AbiDecodingFailed { .. })) => {}
        other => panic!("unexpected {other:?}"),
    }
}

#[test]
fn outcomes_of_the_decoders() {
    match bytes32_from_hex_outcome(Err("Odd number of digits".to_string())) {
        Err(EasError::Encoding(EncodingError::InvalidHex { details })) => {
            assert_eq!(details, "Odd number of digits")
        }
        other => panic!("unexpected {other:?}"),
    }
    match bytes32_from_hex_outcome(Ok(vec![1; 31])) {
        Err(EasError::Encoding(EncodingError::InvalidDataLength { expected, actual })) => {
            assert_eq!((expected, actual), (32, 31))
        }
        other => panic!("unexpected {other:?}"),
    }
    assert_eq!(bytes32_from_hex_outcome(Ok(vec![7; 32])).unwrap(), [7; 32]);

    let (h, d, t) =
        attestation_from_abi_outcome(Ok(([0x0f; 32], "desc".to_string(), 9))).unwrap();
    assert_eq!(h, format!("0x{}", "0f".repeat(32)));
    assert_eq!(d, "desc");
    assert_eq!(t, 9);
    match attestation_from_abi_outcome(Err("overrun".to_string())) {
        Err(EasError::Encoding(EncodingError::AbiDecodingFailed { details })) => {
            assert_eq!(details, "overrun")
        }
        other => panic!("unexpected {other:?}"),
    }
    assert_eq!(hash_from_abi_outcome(Ok([0xa0; 32])).unwrap(), format!("0x{}", "a0".repeat(32)));
    assert!(hash_from_abi_outcome(Err("e".to_string())).is_err());
}

#[test]
fn different_payloads_encode_differently() {
    let a = encode_attestation(&sample_hash(), "a", 1).unwrap();
    let b = encode_attestation(&sample_hash(), "b", 1).unwrap();
    let c = encode_attestation(&sample_hash(), "a", 2).unwrap();
    let d = encode_attestation(&format!("0x{}", "cd".repeat(32)), "a", 1).unwrap();
    assert_ne!(a, b);
    assert_ne!(a, c);
    assert_ne!(a, d);
}

#[test]
fn full_roundtrip_lowercases_an_unprefixed_hash() {
    let mixed = "aB".repeat(32);
    let encoded = encode_attestation(&mixed, "note", 77).unwrap();
    let (hash, description, timestamp) = decode_attestation(&encoded).unwrap();
    assert_eq!(hash, sample_hash());
    assert_eq!(description, "note");
    assert_eq!(timestamp, 77);
}

#[test]
fn decode_simple_ignores_trailing_bytes() {
    let mut data = vec![0x11u8; 32];
    data.extend_from_slice(&[0xff; 5]);
    assert_eq!(decode_simple(&data).unwrap(), format!("0x{}", "11".repeat(32)));
}

#[test]
fn short_inputs_are_refused() {
    for n in 0..32 {
        let data = vec![0u8; n];
        assert!(matches!(
            decode_attestation(&data),
            Err(EasError::Encoding(EncodingError::AbiDecodingFailed { .. }))
        ));
        assert!(matches!(
            decode_simple(&data),
            Err(EasError::Encoding(EncodingError::AbiDecodingFailed { .. }))
        ));
    }
}
