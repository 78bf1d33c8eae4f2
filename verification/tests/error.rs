use eas_client::error::{
    ContractError, EncodingError, ErrorCode, ProviderError, SchemaError,
};
use eas_client::EasError;

#[test]
fn test_error_codes() {
    let err = EasError::Provider(ProviderError::ConnectionFailed {
        url: "http://localhost:8545".to_string(),
    });
    assert_eq!(err.code(), ErrorCode::ConnectionFailed);
}

#[test]
fn test_retryable() {
    let retryable = EasError::Provider(ProviderError::Timeout { timeout_ms: 5000 });
    assert!(retryable.is_retryable());

    let not_retryable = EasError::Contract(ContractError::AttestationNotFound {
        uid: "0x123".to_string(),
    });
    assert!(!not_retryable.is_retryable());
}

#[test]
fn test_error_display() {
    let err = EasError::Contract(ContractError::AttestationNotFound {
        uid: "0xabc".to_string(),
    });
    let msg = err.message();
    assert!(msg.contains("attestation not found"));
    assert!(msg.contains("0xabc"));
}

#[test]
fn test_encoding_error() {
    let err = EasError::Encoding(EncodingError::InvalidHex {
        details: "odd length".to_string(),
    });
    assert_eq!(err.code(), ErrorCode::InvalidHex);
    assert!(!err.is_retryable());
}

#[test]
fn test_schema_error() {
    let err = EasError::Schema(SchemaError::InvalidSchemaUid {
        uid: "not-a-uid".to_string(),
    });
    assert_eq!(err.code(), ErrorCode::InvalidSchemaUid);
}

#[test]
fn code_numbers_by_category() {
    assert_eq!(ErrorCode::ConnectionFailed.number(), 1001);
    assert_eq!(ErrorCode::Timeout.number(), 1006);
    assert_eq!(ErrorCode::AttestationNotFound.number(), 2001);
    assert_eq!(ErrorCode::InsufficientFunds.number(), 2009);
    assert_eq!(ErrorCode::InvalidDataLength.number(), 3004);
    assert_eq!(ErrorCode::InvalidSchemaUid.number(), 4004);
    assert_eq!(ErrorCode::ConfigError.number(), 9001);
    let err = EasError::Config { message: "x".to_string() };
    assert_eq!(err.code().number() / 1000, 9);
}

#[test]
fn retryable_errors_are_the_transient_provider_ones() {
    let yes = [
        EasError::Provider(ProviderError::ConnectionFailed { url: String::new() }),
        EasError::Provider(ProviderError::RequestFailed { details: String::new() }),
        EasError::Provider(ProviderError::Timeout { timeout_ms: 1 }),
    ];
    for e in &yes {
        assert!(e.is_retryable());
    }
    let no = [
        EasError::Provider(ProviderError::ChainIdMismatch { expected: 1, actual: 2 }),
        EasError::Provider(ProviderError::TransactionReverted { reason: String::new() }),
        EasError::Contract(ContractError::EmptyBatch),
        EasError::Config { message: String::new() },
    ];
    for e in &no {
        assert!(!e.is_retryable());
    }
}

#[test]
fn messages_follow_the_error_texts() {
    let e = EasError::Provider(ProviderError::ChainIdMismatch { expected: 1, actual: 42161 });
    assert_eq!(e.message(), "Provider error: chain ID mismatch: expected 1, got 42161");
    let e = EasError::Provider(ProviderError::Timeout { timeout_ms: 0 });
    assert_eq!(e.message(), "Provider error: RPC timeout after 0ms");
    let e = EasError::Encoding(EncodingError::InvalidDataLength { expected: 32, actual: 2 });
    assert_eq!(
        e.message(),
        "Encoding error: invalid data length: expected 32 bytes, got 2"
    );
    let e = EasError::Contract(ContractError::InsufficientFunds {
        needed: "5".to_string(),
        balance: "3".to_string(),
    });
    assert_eq!(
        e.message(),
        "Contract error: insufficient funds for transaction: need 5, have 3"
    );
    let e = EasError::Config { message: "bad".to_string() };
    assert_eq!(e.message(), "Configuration error: bad");
    let e = EasError::Schema(SchemaError::RegistrationFailed { reason: "r".to_string() });
    assert_eq!(e.message(), "Schema error: schema registration failed: r");
    let e = EasError::Contract(ContractError::NoReceipt);
    assert_eq!(e.message(), "Contract error: no receipt returned for transaction");
}

#[test]
fn decimal_text() {
    assert_eq!(eas_client::text::decimal_string(0), "0");
    assert_eq!(eas_client::text::decimal_string(1700000000), "1700000000");
    assert_eq!(eas_client::text::decimal_string(u64::MAX), u64::MAX.to_string());
}

#[test]
fn code_numbers_are_distinct() {
    let all = [
        ErrorCode::ConnectionFailed, ErrorCode::RequestFailed, ErrorCode::ChainIdMismatch,
        ErrorCode::TransactionNotFound, ErrorCode::TransactionReverted, ErrorCode::Timeout,
        ErrorCode::AttestationNotFound, ErrorCode::AttestationRevoked, ErrorCode::InvalidUid,
        ErrorCode::NoReceipt, ErrorCode::UidExtractionFailed, ErrorCode::CallFailed,
        ErrorCode::TransactionFailed, ErrorCode::EmptyBatch, ErrorCode::InsufficientFunds,
        ErrorCode::AbiEncodingFailed, ErrorCode::AbiDecodingFailed, ErrorCode::InvalidHex,
        ErrorCode::InvalidDataLength, ErrorCode::SchemaNotFound, ErrorCode::InvalidSchema,
        ErrorCode::RegistrationFailed, ErrorCode::InvalidSchemaUid, ErrorCode::ConfigError,
    ];
    for (i, a) in all.iter().enumerate() {
        for (j, b) in all.iter().enumerate() {
            assert_eq!(i == j, a.number() == b.number());
        }
    }
}

#[test]
fn component_errors_convert_into_eas_errors() {
    let e: EasError = ProviderError::Timeout { timeout_ms: 5 }.into();
    assert!(matches!(e, EasError::Provider(ProviderError::Timeout { timeout_ms: 5 })));
    let e = EasError::from(ContractError::NoReceipt);
    assert!(matches!(e, EasError::Contract(ContractError::NoReceipt)));
    let e = EasError::from(EncodingError::InvalidHex { details: "x".to_string() });
    assert!(matches!(e, EasError::Encoding(EncodingError::InvalidHex { ref details }) if details == "x"));
    let e = EasError::from(SchemaError::InvalidSchemaUid { uid: "u".to_string() });
    assert_eq!(e.code(), ErrorCode::InvalidSchemaUid);
}
