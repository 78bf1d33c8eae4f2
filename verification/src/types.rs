//! Core data types for EAS attestations and schemas.

use vstd::prelude::*;
use vstd::string::*;


verus! {

/// A moment in UTC: whole seconds since the Unix epoch and the nanoseconds
/// past them.
#[derive(Debug, Clone, Copy, PartialEq, Eq, Structural)]
pub struct UtcTimestamp {
    pub secs: i64,
    pub nanos: u32,
}

/// An on-chain attestation record returned by EAS.
#[derive(Debug, Clone)]
pub struct Attestation {
    /// Unique attestation identifier (bytes32 hex, 0x-prefixed).
    pub uid: String,
    /// Schema UID this attestation belongs to.
    pub schema_uid: String,
    /// The encoded attestation data.
    pub data: Vec<u8>,
    /// Address of the attester.
    pub attester: String,
    /// Recipient address (zero address if none).
    pub recipient: String,
    /// Whether this attestation is revocable.
    pub revocable: bool,
    /// Whether this attestation has been revoked.
    pub revoked: bool,
    /// On-chain timestamp (Unix seconds).
    pub timestamp: u64,
    /// Expiration time (0 = no expiration).
    pub expiration_time: u64,
    /// Transaction hash that created this attestation.
    pub transaction_hash: String,
}

/// Request to create a new attestation.
#[derive(Debug, Clone)]
pub struct AttestationRequest {
    /// Schema UID to attest against (bytes32 hex, 0x-prefixed).
    pub schema_uid: String,
    /// The data to attest (raw bytes, will be ABI-encoded).
    pub data: Vec<u8>,
    /// Recipient address (use zero address for no specific recipient).
    pub recipient: String,
    /// Whether this attestation can be revoked later.
    pub revocable: bool,
    /// Expiration time in Unix seconds (0 = no expiration).
    pub expiration_time: u64,
    /// Reference UID to link to another attestation (zero bytes32 if none).
    pub ref_uid: String,
}

/// `0x` followed by `n` zero digits.
pub open spec fn zero_hex(n: nat) -> Seq<char> {
    "0x"@ + Seq::new(n, |i: int| '0')
}

impl AttestationRequest {
    /// Creates a non-revocable attestation request with no recipient (the
    /// zero address), no expiration and no reference (the zero bytes32).
    pub fn simple(schema_uid: &str, data: Vec<u8>) -> (r: Self)
        ensures
            r.schema_uid@ == schema_uid@,
            r.data@ == data@,
            r.recipient@ == zero_hex(40),
            !r.revocable,
            r.expiration_time == 0,
            r.ref_uid@ == zero_hex(64),
    {
        proof {
            reveal_strlit("0x");
            reveal_strlit("0x0000000000000000000000000000000000000000");
            reveal_strlit("0x0000000000000000000000000000000000000000000000000000000000000000");
        }
        let recipient = String::from_str("0x0000000000000000000000000000000000000000");
        let ref_uid = String::from_str(
            "0x0000000000000000000000000000000000000000000000000000000000000000",
        );
        assert(recipient@ =~= zero_hex(40));
        assert(ref_uid@ =~= zero_hex(64));
        AttestationRequest {
            schema_uid: String::from_str(schema_uid),
            data,
            recipient,
            revocable: false,
            expiration_time: 0,
            ref_uid,
        }
    }
}

/// An EAS schema record.
#[derive(Debug, Clone)]
pub struct SchemaRecord {
    /// Schema UID (bytes32 hex, 0x-prefixed).
    pub uid: String,
    /// Schema string definition (e.g., "bytes32 merkleRoot").
    pub schema: String,
    /// Resolver contract address (zero address if none).
    pub resolver: String,
    /// Whether attestations under this schema are revocable.
    pub revocable: bool,
}

/// Request to register a new schema.
#[derive(Debug, Clone)]
pub struct SchemaRequest {
    /// Schema string definition (e.g., "bytes32 merkleRoot, uint64 timestamp").
    pub schema: String,
    /// Resolver contract address (zero address if none).
    pub resolver: String,
    /// Whether attestations under this schema should be revocable.
    pub revocable: bool,
}

/// Result of a batch attestation operation.
#[derive(Debug, Clone)]
pub struct BatchAttestationResult {
    /// UIDs of the created attestations.
    pub uids: Vec<String>,
    /// Transaction hash for the batch.
    pub transaction_hash: String,
    /// Timestamp of the batch operation.
    pub timestamp: UtcTimestamp,
}

} // verus!
