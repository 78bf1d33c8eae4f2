//! Client library for the Ethereum Attestation Service (EAS).
//!
//! The verified core of the library: chain configurations, client
//! configuration, the attestation payload encoding, the error taxonomy, the
//! attestation request and record types, and the decisions that the client
//! takes around its network calls.

use vstd::prelude::*;

pub mod chain;
pub mod client;
pub mod config;
pub mod encoding;
pub mod error;
pub mod hexcodec;
pub mod text;
pub mod types;

pub use chain::{chain_by_id, ChainConfig};
pub use client::EasClient;
pub use config::EasConfig;
pub use encoding::{decode_attestation, decode_simple, encode_attestation, encode_simple};
pub use error::EasError;
pub use types::{Attestation, AttestationRequest, BatchAttestationResult, SchemaRecord, SchemaRequest};

verus! {

/// The crate version.
pub fn version() -> (v: &'static str)
    ensures
        v@ == "0.1.0"@,
{
    "0.1.0"
}

} // verus!
