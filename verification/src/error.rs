//! Error types of the library, their numeric codes and their messages.

use vstd::prelude::*;
use vstd::string::*;

use crate::text::{decimal, decimal_string, joined};

verus! {

/// Top-level error type for all EAS operations.
#[derive(Debug)]
pub enum EasError {
    Provider(ProviderError),
    Contract(ContractError),
    Encoding(EncodingError),
    Config { message: String },
    Schema(SchemaError),
}

/// Errors from the Ethereum provider (RPC communication).
#[derive(Debug)]
pub enum ProviderError {
    ConnectionFailed { url: String },
    RequestFailed { details: String },
    ChainIdMismatch { expected: u64, actual: u64 },
    TransactionNotFound { tx_hash: String },
    TransactionReverted { reason: String },
    Timeout { timeout_ms: u64 },
}

/// Errors from EAS smart contract interactions.
#[derive(Debug)]
pub enum ContractError {
    AttestationNotFound { uid: String },
    AttestationRevoked { uid: String },
    InvalidUid { uid: String },
    NoReceipt,
    UidExtractionFailed,
    CallFailed { details: String },
    TransactionFailed { details: String },
    EmptyBatch,
    InsufficientFunds { needed: String, balance: String },
}

/// Errors from ABI encoding/decoding operations.
#[derive(Debug)]
pub enum EncodingError {
    AbiEncodingFailed { details: String },
    AbiDecodingFailed { details: String },
    InvalidHex { details: String },
    InvalidDataLength { expected: usize, actual: usize },
}

/// Errors related to EAS schema operations.
#[derive(Debug)]
pub enum SchemaError {
    SchemaNotFound { uid: String },
    InvalidSchema { schema: String },
    RegistrationFailed { reason: String },
    InvalidSchemaUid { uid: String },
}

/// Error codes for programmatic handling; `number` gives each its numeric
/// value: provider errors are 1xxx, contract errors 2xxx, encoding errors
/// 3xxx, schema errors 4xxx and configuration errors 9xxx.
#[derive(Debug, Clone, Copy, PartialEq, Eq, Structural)]
pub enum ErrorCode {
    ConnectionFailed,
    RequestFailed,
    ChainIdMismatch,
    TransactionNotFound,
    TransactionReverted,
    Timeout,
    AttestationNotFound,
    AttestationRevoked,
    InvalidUid,
    NoReceipt,
    UidExtractionFailed,
    CallFailed,
    TransactionFailed,
    EmptyBatch,
    InsufficientFunds,
    AbiEncodingFailed,
    AbiDecodingFailed,
    InvalidHex,
    InvalidDataLength,
    SchemaNotFound,
    InvalidSchema,
    RegistrationFailed,
    InvalidSchemaUid,
    ConfigError,
}

impl ErrorCode {
    /// The numeric value of each code.
    pub open spec fn spec_number(self) -> u16 {
        match self {
            ErrorCode::ConnectionFailed => 1001,
            ErrorCode::RequestFailed => 1002,
            ErrorCode::ChainIdMismatch => 1003,
            ErrorCode::TransactionNotFound => 1004,
            ErrorCode::TransactionReverted => 1005,
            ErrorCode::Timeout => 1006,
            ErrorCode::AttestationNotFound => 2001,
            ErrorCode::AttestationRevoked => 2002,
            ErrorCode::InvalidUid => 2003,
            ErrorCode::NoReceipt => 2004,
            ErrorCode::UidExtractionFailed => 2005,
            ErrorCode::CallFailed => 2006,
            ErrorCode::TransactionFailed => 2007,
            ErrorCode::EmptyBatch => 2008,
            ErrorCode::InsufficientFunds => 2009,
            ErrorCode::AbiEncodingFailed => 3001,
            ErrorCode::AbiDecodingFailed => 3002,
            ErrorCode::InvalidHex => 3003,
            ErrorCode::InvalidDataLength => 3004,
            ErrorCode::SchemaNotFound => 4001,
            ErrorCode::InvalidSchema => 4002,
            ErrorCode::RegistrationFailed => 4003,
            ErrorCode::InvalidSchemaUid => 4004,
            ErrorCode::ConfigError => 9001,
        }
    }

    /// Returns the numeric value of this code.
    pub fn number(&self) -> (n: u16)
        ensures
            n == self.spec_number(),
    {
        match self {
            ErrorCode::ConnectionFailed => 1001,
            ErrorCode::RequestFailed => 1002,
            ErrorCode::ChainIdMismatch => 1003,
            ErrorCode::TransactionNotFound => 1004,
            ErrorCode::TransactionReverted => 1005,
            ErrorCode::Timeout => 1006,
            ErrorCode::AttestationNotFound => 2001,
            ErrorCode::AttestationRevoked => 2002,
            ErrorCode::InvalidUid => 2003,
            ErrorCode::NoReceipt => 2004,
            ErrorCode::UidExtractionFailed => 2005,
            ErrorCode::CallFailed => 2006,
            ErrorCode::TransactionFailed => 2007,
            ErrorCode::EmptyBatch => 2008,
            ErrorCode::InsufficientFunds => 2009,
            ErrorCode::AbiEncodingFailed => 3001,
            ErrorCode::AbiDecodingFailed => 3002,
            ErrorCode::InvalidHex => 3003,
            ErrorCode::InvalidDataLength => 3004,
            ErrorCode::SchemaNotFound => 4001,
            ErrorCode::InvalidSchema => 4002,
            ErrorCode::RegistrationFailed => 4003,
            ErrorCode::InvalidSchemaUid => 4004,
            ErrorCode::ConfigError => 9001,
        }
    }
}

/// The category digit of an error: the thousands digit of its code.
pub open spec fn category_digit(e: EasError) -> u16 {
    match e {
        EasError::Provider(_) => 1,
        EasError::Contract(_) => 2,
        EasError::Encoding(_) => 3,
        EasError::Schema(_) => 4,
        EasError::Config { .. } => 9,
    }
}

/// The code of each error.
pub open spec fn code_of(e: EasError) -> ErrorCode {
    match e {
        EasError::Provider(p) => match p {
            ProviderError::ConnectionFailed { .. } => ErrorCode::ConnectionFailed,
            ProviderError::RequestFailed { .. } => ErrorCode::RequestFailed,
            ProviderError::ChainIdMismatch { .. } => ErrorCode::ChainIdMismatch,
            ProviderError::TransactionNotFound { .. } => ErrorCode::TransactionNotFound,
            ProviderError::TransactionReverted { .. } => ErrorCode::TransactionReverted,
            ProviderError::Timeout { .. } => ErrorCode::Timeout,
        },
        EasError::Contract(c) => match c {
            ContractError::AttestationNotFound { .. } => ErrorCode::AttestationNotFound,
            ContractError::AttestationRevoked { .. } => ErrorCode::AttestationRevoked,
            ContractError::InvalidUid { .. } => ErrorCode::InvalidUid,
            ContractError::NoReceipt => ErrorCode::NoReceipt,
            ContractError::UidExtractionFailed => ErrorCode::UidExtractionFailed,
            ContractError::CallFailed { .. } => ErrorCode::CallFailed,
            ContractError::TransactionFailed { .. } => ErrorCode::TransactionFailed,
            ContractError::EmptyBatch => ErrorCode::EmptyBatch,
            ContractError::InsufficientFunds { .. } => ErrorCode::InsufficientFunds,
        },
        EasError::Encoding(n) => match n {
            EncodingError::AbiEncodingFailed { .. } => ErrorCode::AbiEncodingFailed,
            EncodingError::AbiDecodingFailed { .. } => ErrorCode::AbiDecodingFailed,
            EncodingError::InvalidHex { .. } => ErrorCode::InvalidHex,
            EncodingError::InvalidDataLength { .. } => ErrorCode::InvalidDataLength,
        },
        EasError::Schema(s) => match s {
            SchemaError::SchemaNotFound { .. } => ErrorCode::SchemaNotFound,
            SchemaError::InvalidSchema { .. } => ErrorCode::InvalidSchema,
            SchemaError::RegistrationFailed { .. } => ErrorCode::RegistrationFailed,
            SchemaError::InvalidSchemaUid { .. } => ErrorCode::InvalidSchemaUid,
        },
        EasError::Config { .. } => ErrorCode::ConfigError,
    }
}

/// An error is transient when the RPC connection failed, an RPC request
/// failed, or an RPC call timed out.
pub open spec fn retryable(e: EasError) -> bool {
    ||| e matches EasError::Provider(ProviderError::ConnectionFailed { .. })
    ||| e matches EasError::Provider(ProviderError::RequestFailed { .. })
    ||| e matches EasError::Provider(ProviderError::Timeout { .. })
}

/// The message of a provider error.
pub open spec fn provider_message(e: ProviderError) -> Seq<char> {
    match e {
        ProviderError::ConnectionFailed { url } => "RPC connection failed: "@ + url@,
        ProviderError::RequestFailed { details } => "RPC request failed: "@ + details@,
        ProviderError::ChainIdMismatch { expected, actual } => "chain ID mismatch: expected "@
            + decimal(expected as nat) + ", got "@ + decimal(actual as nat),
        ProviderError::TransactionNotFound { tx_hash } => "transaction not found: "@ + tx_hash@,
        ProviderError::TransactionReverted { reason } => "transaction reverted: "@ + reason@,
        ProviderError::Timeout { timeout_ms } => "RPC timeout after "@ + decimal(timeout_ms as nat)
            + "ms"@,
    }
}

/// The message of a contract error.
pub open spec fn contract_message(e: ContractError) -> Seq<char> {
    match e {
        ContractError::AttestationNotFound { uid } => "attestation not found: "@ + uid@,
        ContractError::AttestationRevoked { uid } => "attestation revoked: "@ + uid@,
        ContractError::InvalidUid { uid } => "invalid attestation UID: "@ + uid@,
        ContractError::NoReceipt => "no receipt returned for transaction"@,
        ContractError::UidExtractionFailed => "failed to extract UID from transaction logs"@,
        ContractError::CallFailed { details } => "contract call failed: "@ + details@,
        ContractError::TransactionFailed { details } => "transaction failed: "@ + details@,
        ContractError::EmptyBatch => "empty batch: at least one request is required"@,
        ContractError::InsufficientFunds { needed, balance } =>
            "insufficient funds for transaction: need "@ + needed@ + ", have "@ + balance@,
    }
}

/// The message of an encoding error.
pub open spec fn encoding_message(e: EncodingError) -> Seq<char> {
    match e {
        EncodingError::AbiEncodingFailed { details } => "ABI encoding failed: "@ + details@,
        EncodingError::AbiDecodingFailed { details } => "ABI decoding failed: "@ + details@,
        EncodingError::InvalidHex { details } => "invalid hex string: "@ + details@,
        EncodingError::InvalidDataLength { expected, actual } =>
            "invalid data length: expected "@ + decimal(expected as nat) + " bytes, got "@
                + decimal(actual as nat),
    }
}

/// The message of a schema error.
pub open spec fn schema_message(e: SchemaError) -> Seq<char> {
    match e {
        SchemaError::SchemaNotFound { uid } => "schema not found: "@ + uid@,
        SchemaError::InvalidSchema { schema } => "invalid schema string: "@ + schema@,
        SchemaError::RegistrationFailed { reason } => "schema registration failed: "@ + reason@,
        SchemaError::InvalidSchemaUid { uid } => "invalid schema UID format: "@ + uid@,
    }
}

/// The human-readable message of an error.
pub open spec fn error_message(e: EasError) -> Seq<char> {
    match e {
        EasError::Provider(p) => "Provider error: "@ + provider_message(p),
        EasError::Contract(c) => "Contract error: "@ + contract_message(c),
        EasError::Encoding(n) => "Encoding error: "@ + encoding_message(n),
        EasError::Config { message } => "Configuration error: "@ + message@,
        EasError::Schema(s) => "Schema error: "@ + schema_message(s),
    }
}

impl ProviderError {
    /// The message of this provider error.
    pub fn message(&self) -> (s: String)
        ensures
            s@ == provider_message(*self),
    {
        match self {
            ProviderError::ConnectionFailed { url } => joined("RPC connection failed: ", url.as_str()),
            ProviderError::RequestFailed { details } => joined("RPC request failed: ", details.as_str()),
            ProviderError::ChainIdMismatch { expected, actual } => {
                let a = decimal_string(*expected);
                let b = decimal_string(*actual);
                let s = joined("chain ID mismatch: expected ", a.as_str()).concat(", got ").concat(
                    b.as_str(),
                );
                s
            },
            ProviderError::TransactionNotFound { tx_hash } => joined(
                "transaction not found: ",
                tx_hash.as_str(),
            ),
            ProviderError::TransactionReverted { reason } => joined(
                "transaction reverted: ",
                reason.as_str(),
            ),
            ProviderError::Timeout { timeout_ms } => {
                let a = decimal_string(*timeout_ms);
                joined("RPC timeout after ", a.as_str()).concat("ms")
            },
        }
    }
}

impl ContractError {
    /// The message of this contract error.
    pub fn message(&self) -> (s: String)
        ensures
            s@ == contract_message(*self),
    {
        match self {
            ContractError::AttestationNotFound { uid } => joined("attestation not found: ", uid.as_str()),
            ContractError::AttestationRevoked { uid } => joined("attestation revoked: ", uid.as_str()),
            ContractError::InvalidUid { uid } => joined("invalid attestation UID: ", uid.as_str()),
            ContractError::NoReceipt => String::from_str("no receipt returned for transaction"),
            ContractError::UidExtractionFailed => String::from_str(
                "failed to extract UID from transaction logs",
            ),
            ContractError::CallFailed { details } => joined("contract call failed: ", details.as_str()),
            ContractError::TransactionFailed { details } => joined(
                "transaction failed: ",
                details.as_str(),
            ),
            ContractError::EmptyBatch => String::from_str(
                "empty batch: at least one request is required",
            ),
            ContractError::InsufficientFunds { needed, balance } => joined(
                "insufficient funds for transaction: need ",
                needed.as_str(),
            ).concat(", have ").concat(balance.as_str()),
        }
    }
}

impl EncodingError {
    /// The message of this encoding error.
    pub fn message(&self) -> (s: String)
        ensures
            s@ == encoding_message(*self),
    {
        match self {
            EncodingError::AbiEncodingFailed { details } => joined("ABI encoding failed: ", details.as_str()),
            EncodingError::AbiDecodingFailed { details } => joined("ABI decoding failed: ", details.as_str()),
            EncodingError::InvalidHex { details } => joined("invalid hex string: ", details.as_str()),
            EncodingError::InvalidDataLength { expected, actual } => {
                let a = decimal_string(*expected as u64);
                let b = decimal_string(*actual as u64);
                joined("invalid data length: expected ", a.as_str()).concat(" bytes, got ").concat(
                    b.as_str(),
                )
            },
        }
    }
}

impl SchemaError {
    /// The message of this schema error.
    pub fn message(&self) -> (s: String)
        ensures
            s@ == schema_message(*self),
    {
        match self {
            SchemaError::SchemaNotFound { uid } => joined("schema not found: ", uid.as_str()),
            SchemaError::InvalidSchema { schema } => joined("invalid schema string: ", schema.as_str()),
            SchemaError::RegistrationFailed { reason } => joined(
                "schema registration failed: ",
                reason.as_str(),
            ),
            SchemaError::InvalidSchemaUid { uid } => joined("invalid schema UID format: ", uid.as_str()),
        }
    }
}

impl EasError {
    /// Returns the code of this error.
    pub fn code(&self) -> (c: ErrorCode)
        ensures
            c == code_of(*self),
    {
        match self {
            EasError::Provider(e) => match e {
                ProviderError::ConnectionFailed { .. } => ErrorCode::ConnectionFailed,
                ProviderError::RequestFailed { .. } => ErrorCode::RequestFailed,
                ProviderError::ChainIdMismatch { .. } => ErrorCode::ChainIdMismatch,
                ProviderError::TransactionNotFound { .. } => ErrorCode::TransactionNotFound,
                ProviderError::TransactionReverted { .. } => ErrorCode::TransactionReverted,
                ProviderError::Timeout { .. } => ErrorCode::Timeout,
            },
            EasError::Contract(e) => match e {
                ContractError::AttestationNotFound { .. } => ErrorCode::AttestationNotFound,
                ContractError::AttestationRevoked { .. } => ErrorCode::AttestationRevoked,
                ContractError::InvalidUid { .. } => ErrorCode::InvalidUid,
                ContractError::NoReceipt => ErrorCode::NoReceipt,
                ContractError::UidExtractionFailed => ErrorCode::UidExtractionFailed,
                ContractError::CallFailed { .. } => ErrorCode::CallFailed,
                ContractError::TransactionFailed { .. } => ErrorCode::TransactionFailed,
                ContractError::EmptyBatch => ErrorCode::EmptyBatch,
                ContractError::InsufficientFunds { .. } => ErrorCode::InsufficientFunds,
            },
            EasError::Encoding(e) => match e {
                EncodingError::AbiEncodingFailed { .. } => ErrorCode::AbiEncodingFailed,
                EncodingError::AbiDecodingFailed { .. } => ErrorCode::AbiDecodingFailed,
                EncodingError::InvalidHex { .. } => ErrorCode::InvalidHex,
                EncodingError::InvalidDataLength { .. } => ErrorCode::InvalidDataLength,
            },
            EasError::Schema(e) => match e {
                SchemaError::SchemaNotFound { .. } => ErrorCode::SchemaNotFound,
                SchemaError::InvalidSchema { .. } => ErrorCode::InvalidSchema,
                SchemaError::RegistrationFailed { .. } => ErrorCode::RegistrationFailed,
                SchemaError::InvalidSchemaUid { .. } => ErrorCode::InvalidSchemaUid,
            },
            EasError::Config { .. } => ErrorCode::ConfigError,
        }
    }

    /// Whether this error is transient and the operation can be retried.
    pub fn is_retryable(&self) -> (r: bool)
        ensures
            r == retryable(*self),
    {
        match self {
            EasError::Provider(ProviderError::ConnectionFailed { .. }) => true,
            EasError::Provider(ProviderError::RequestFailed { .. }) => true,
            EasError::Provider(ProviderError::Timeout { .. }) => true,
            _ => false,
        }
    }

    /// The human-readable message of this error.
    pub fn message(&self) -> (s: String)
        ensures
            s@ == error_message(*self),
    {
        match self {
            EasError::Provider(e) => {
                let m = e.message();
                joined("Provider error: ", m.as_str())
            },
            EasError::Contract(e) => {
                let m = e.message();
                joined("Contract error: ", m.as_str())
            },
            EasError::Encoding(e) => {
                let m = e.message();
                joined("Encoding error: ", m.as_str())
            },
            EasError::Config { message } => joined("Configuration error: ", message.as_str()),
            EasError::Schema(e) => {
                let m = e.message();
                joined("Schema error: ", m.as_str())
            },
        }
    }
}

/// The thousands digit of an error's numeric code names its category:
/// 1 for provider errors, 2 for contract errors, 3 for encoding errors,
/// 4 for schema errors and 9 for configuration errors.
pub proof fn lemma_code_category(e: EasError)
    ensures
        code_of(e).spec_number() / 1000 == category_digit(e),
{
}

/// Each error is classified by the code of the same name, with its number:
/// for example a missing transaction is `TransactionNotFound` (1004) and a
/// reverted one `TransactionReverted` (1005); a configuration error is
/// `ConfigError` (9001).
pub proof fn lemma_code_names_the_variant(e: EasError)
    ensures
        e matches EasError::Provider(ProviderError::ConnectionFailed { .. }) ==> code_of(e) == ErrorCode::ConnectionFailed && code_of(e).spec_number() == 1001,
        e matches EasError::Provider(ProviderError::RequestFailed { .. }) ==> code_of(e) == ErrorCode::RequestFailed && code_of(e).spec_number() == 1002,
        e matches EasError::Provider(ProviderError::ChainIdMismatch { .. }) ==> code_of(e) == ErrorCode::ChainIdMismatch && code_of(e).spec_number() == 1003,
        e matches EasError::Provider(ProviderError::TransactionNotFound { .. }) ==> code_of(e) == ErrorCode::TransactionNotFound && code_of(e).spec_number() == 1004,
        e matches EasError::Provider(ProviderError::TransactionReverted { .. }) ==> code_of(e) == ErrorCode::TransactionReverted && code_of(e).spec_number() == 1005,
        e matches EasError::Provider(ProviderError::Timeout { .. }) ==> code_of(e) == ErrorCode::Timeout && code_of(e).spec_number() == 1006,
        e matches EasError::Contract(ContractError::AttestationNotFound { .. }) ==> code_of(e) == ErrorCode::AttestationNotFound && code_of(e).spec_number() == 2001,
        e matches EasError::Contract(ContractError::AttestationRevoked { .. }) ==> code_of(e) == ErrorCode::AttestationRevoked && code_of(e).spec_number() == 2002,
        e matches EasError::Contract(ContractError::InvalidUid { .. }) ==> code_of(e) == ErrorCode::InvalidUid && code_of(e).spec_number() == 2003,
        e matches EasError::Contract(ContractError::NoReceipt) ==> code_of(e) == ErrorCode::NoReceipt && code_of(e).spec_number() == 2004,
        e matches EasError::Contract(ContractError::UidExtractionFailed) ==> code_of(e) == ErrorCode::UidExtractionFailed && code_of(e).spec_number() == 2005,
        e matches EasError::Contract(ContractError::CallFailed { .. }) ==> code_of(e) == ErrorCode::CallFailed && code_of(e).spec_number() == 2006,
        e matches EasError::Contract(ContractError::TransactionFailed { .. }) ==> code_of(e) == ErrorCode::TransactionFailed && code_of(e).spec_number() == 2007,
        e matches EasError::Contract(ContractError::EmptyBatch) ==> code_of(e) == ErrorCode::EmptyBatch && code_of(e).spec_number() == 2008,
        e matches EasError::Contract(ContractError::InsufficientFunds { .. }) ==> code_of(e) == ErrorCode::InsufficientFunds && code_of(e).spec_number() == 2009,
        e matches EasError::Encoding(EncodingError::AbiEncodingFailed { .. }) ==> code_of(e) == ErrorCode::AbiEncodingFailed && code_of(e).spec_number() == 3001,
        e matches EasError::Encoding(EncodingError::AbiDecodingFailed { .. }) ==> code_of(e) == ErrorCode::AbiDecodingFailed && code_of(e).spec_number() == 3002,
        e matches EasError::Encoding(EncodingError::InvalidHex { .. }) ==> code_of(e) == ErrorCode::InvalidHex && code_of(e).spec_number() == 3003,
        e matches EasError::Encoding(EncodingError::InvalidDataLength { .. }) ==> code_of(e) == ErrorCode::InvalidDataLength && code_of(e).spec_number() == 3004,
        e matches EasError::Schema(SchemaError::SchemaNotFound { .. }) ==> code_of(e) == ErrorCode::SchemaNotFound && code_of(e).spec_number() == 4001,
        e matches EasError::Schema(SchemaError::InvalidSchema { .. }) ==> code_of(e) == ErrorCode::InvalidSchema && code_of(e).spec_number() == 4002,
        e matches EasError::Schema(SchemaError::RegistrationFailed { .. }) ==> code_of(e) == ErrorCode::RegistrationFailed && code_of(e).spec_number() == 4003,
        e matches EasError::Schema(SchemaError::InvalidSchemaUid { .. }) ==> code_of(e) == ErrorCode::InvalidSchemaUid && code_of(e).spec_number() == 4004,
        e matches EasError::Config { .. } ==> code_of(e) == ErrorCode::ConfigError && code_of(e).spec_number() == 9001,
{
}

/// The message of each error: its category, then what went wrong, with the
/// error's details where it has any.
pub proof fn lemma_message_of_each_variant(e: EasError)
    ensures
        e matches EasError::Provider(ProviderError::ConnectionFailed { url })
            ==> error_message(e) == "Provider error: "@ + ("RPC connection failed: "@ + url@),
        e matches EasError::Provider(ProviderError::RequestFailed { details })
            ==> error_message(e) == "Provider error: "@ + ("RPC request failed: "@ + details@),
        e matches EasError::Provider(ProviderError::ChainIdMismatch { expected, actual })
            ==> error_message(e) == "Provider error: "@ + ("chain ID mismatch: expected "@ + decimal(expected as nat) + ", got "@ + decimal(actual as nat)),
        e matches EasError::Provider(ProviderError::TransactionNotFound { tx_hash })
            ==> error_message(e) == "Provider error: "@ + ("transaction not found: "@ + tx_hash@),
        e matches EasError::Provider(ProviderError::TransactionReverted { reason })
            ==> error_message(e) == "Provider error: "@ + ("transaction reverted: "@ + reason@),
        e matches EasError::Provider(ProviderError::Timeout { timeout_ms })
            ==> error_message(e) == "Provider error: "@ + ("RPC timeout after "@ + decimal(timeout_ms as nat) + "ms"@),
        e matches EasError::Contract(ContractError::AttestationNotFound { uid })
            ==> error_message(e) == "Contract error: "@ + ("attestation not found: "@ + uid@),
        e matches EasError::Contract(ContractError::AttestationRevoked { uid })
            ==> error_message(e) == "Contract error: "@ + ("attestation revoked: "@ + uid@),
        e matches EasError::Contract(ContractError::InvalidUid { uid })
            ==> error_message(e) == "Contract error: "@ + ("invalid attestation UID: "@ + uid@),
        e matches EasError::Contract(ContractError::NoReceipt)
            ==> error_message(e) == "Contract error: "@ + ("no receipt returned for transaction"@),
        e matches EasError::Contract(ContractError::UidExtractionFailed)
            ==> error_message(e) == "Contract error: "@ + ("failed to extract UID from transaction logs"@),
        e matches EasError::Contract(ContractError::CallFailed { details })
            ==> error_message(e) == "Contract error: "@ + ("contract call failed: "@ + details@),
        e matches EasError::Contract(ContractError::TransactionFailed { details })
            ==> error_message(e) == "Contract error: "@ + ("transaction failed: "@ + details@),
        e matches EasError::Contract(ContractError::EmptyBatch)
            ==> error_message(e) == "Contract error: "@ + ("empty batch: at least one request is required"@),
        e matches EasError::Contract(ContractError::InsufficientFunds { needed, balance })
            ==> error_message(e) == "Contract error: "@ + ("insufficient funds for transaction: need "@ + needed@ + ", have "@ + balance@),
        e matches EasError::Encoding(EncodingError::AbiEncodingFailed { details })
            ==> error_message(e) == "Encoding error: "@ + ("ABI encoding failed: "@ + details@),
        e matches EasError::Encoding(EncodingError::AbiDecodingFailed { details })
            ==> error_message(e) == "Encoding error: "@ + ("ABI decoding failed: "@ + details@),
        e matches EasError::Encoding(EncodingError::InvalidHex { details })
            ==> error_message(e) == "Encoding error: "@ + ("invalid hex string: "@ + details@),
        e matches EasError::Encoding(EncodingError::InvalidDataLength { expected, actual })
            ==> error_message(e) == "Encoding error: "@ + ("invalid data length: expected "@ + decimal(expected as nat) + " bytes, got "@ + decimal(actual as nat)),
        e matches EasError::Schema(SchemaError::SchemaNotFound { uid })
            ==> error_message(e) == "Schema error: "@ + ("schema not found: "@ + uid@),
        e matches EasError::Schema(SchemaError::InvalidSchema { schema })
            ==> error_message(e) == "Schema error: "@ + ("invalid schema string: "@ + schema@),
        e matches EasError::Schema(SchemaError::RegistrationFailed { reason })
            ==> error_message(e) == "Schema error: "@ + ("schema registration failed: "@ + reason@),
        e matches EasError::Schema(SchemaError::InvalidSchemaUid { uid })
            ==> error_message(e) == "Schema error: "@ + ("invalid schema UID format: "@ + uid@),
        e matches EasError::Config { message }
            ==> error_message(e) == "Configuration error: "@ + (message@),
{
}

/// Distinct error codes have distinct numeric values.
pub proof fn lemma_code_numbers_distinct(a: ErrorCode, b: ErrorCode)
    ensures
        a.spec_number() == b.spec_number() ==> a == b,
{
}

/// An error can be retried exactly when its code is one of the transient
/// provider codes: connection failed, request failed, or timeout.
pub proof fn lemma_retryable_codes(e: EasError)
    ensures
        retryable(e) <==> (code_of(e) == ErrorCode::ConnectionFailed || code_of(e)
            == ErrorCode::RequestFailed || code_of(e) == ErrorCode::Timeout),
        retryable(e) ==> category_digit(e) == 1,
{
}

impl From<ProviderError> for EasError {
    fn from(e: ProviderError) -> (r: Self) {
        EasError::Provider(e)
    }
}

impl vstd::std_specs::convert::FromSpecImpl<ProviderError> for EasError {
    open spec fn obeys_from_spec() -> bool {
        true
    }

    open spec fn from_spec(e: ProviderError) -> Self {
        EasError::Provider(e)
    }
}

impl From<ContractError> for EasError {
    fn from(e: ContractError) -> (r: Self) {
        EasError::Contract(e)
    }
}

impl vstd::std_specs::convert::FromSpecImpl<ContractError> for EasError {
    open spec fn obeys_from_spec() -> bool {
        true
    }

    open spec fn from_spec(e: ContractError) -> Self {
        EasError::Contract(e)
    }
}

impl From<EncodingError> for EasError {
    fn from(e: EncodingError) -> (r: Self) {
        EasError::Encoding(e)
    }
}

impl vstd::std_specs::convert::FromSpecImpl<EncodingError> for EasError {
    open spec fn obeys_from_spec() -> bool {
        true
    }

    open spec fn from_spec(e: EncodingError) -> Self {
        EasError::Encoding(e)
    }
}

impl From<SchemaError> for EasError {
    fn from(e: SchemaError) -> (r: Self) {
        EasError::Schema(e)
    }
}

impl vstd::std_specs::convert::FromSpecImpl<SchemaError> for EasError {
    open spec fn obeys_from_spec() -> bool {
        true
    }

    open spec fn from_spec(e: SchemaError) -> Self {
        EasError::Schema(e)
    }
}

} // verus!
