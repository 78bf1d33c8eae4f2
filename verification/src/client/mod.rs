//! EAS client core: the contract addresses and chain settings of a connected
//! client, and the decisions taken while connecting.
//!
//! Connecting runs in two steps around one network request.
//! `EasClient::connect_prepare` parses the private key and the RPC URL. The
//! caller then asks the endpoint for its chain ID and hands the reply to
//! `EasClient::connect_finish`, which checks the chain ID and parses the
//! contract addresses.

pub mod attestation;

use vstd::prelude::*;
use vstd::string::*;
use vstd::utf8::*;

use alloy::primitives::Address;
use alloy::signers::local::PrivateKeySigner;

use crate::chain::{is_address_text, known_chain, lemma_known_addresses_well_formed};
use crate::config::EasConfig;
use crate::error::{EasError, ProviderError};
use crate::hexcodec::{all_hex_digits, hex_bytes, strip_0x_chars};
use crate::text::joined;

verus! {

/// The bytes of a text with one leading `0x` or `0X` removed, if it has one.
pub open spec fn strip_0x_either_case(b: Seq<u8>) -> Seq<u8> {
    if b.len() >= 2 && b[0] == 48 && (b[1] == 120 || b[1] == 88) {
        b.skip(2)
    } else {
        b
    }
}

/// The `n` bytes that a text denotes when `const_hex` decodes it into an
/// array of `n` bytes: an even number of bytes, then, after an optional
/// `0x` or `0X`, exactly `2 n` hex digits.
pub open spec fn hex_array(text: Seq<u8>, n: nat) -> Option<Seq<u8>> {
    let digits = strip_0x_either_case(text);
    if text.len() % 2 == 0 && digits.len() == 2 * n && all_hex_digits(digits) {
        Some(hex_bytes(digits))
    } else {
        None
    }
}

/// The 20 bytes that an address text denotes.
pub open spec fn address_bytes(text: Seq<u8>) -> Option<Seq<u8>> {
    hex_array(text, 20)
}

/// The number that some bytes denote big-endian.
pub open spec fn big_endian(b: Seq<u8>) -> nat
    decreases b.len(),
{
    if b.len() == 0 {
        0
    } else {
        big_endian(b.drop_last()) * 256 + b.last() as nat
    }
}

/// The order of the secp256k1 group.
pub open spec fn secp256k1_order() -> nat {
    0xFFFFFFFFFFFFFFFFFFFFFFFFFFFFFFFEBAAEDCE6AF48A03BBFD25E8CD0364141nat
}

/// The 32 secret bytes that a private key text denotes: 32 bytes of hex as
/// `const_hex` decodes them, whose big-endian value is a scalar of
/// secp256k1 other than zero.
pub open spec fn signing_key_bytes(text: Seq<u8>) -> Option<Seq<u8>> {
    match hex_array(text, 32) {
        Some(b) => if 0 < big_endian(b) < secp256k1_order() {
            Some(b)
        } else {
            None
        },
        None => None,
    }
}

/// The text of the error that parsing a refused private key reports.
pub uninterp spec fn private_key_error_text(text: Seq<u8>) -> Seq<char>;

/// Calls `PrivateKeySigner::from_str` of alloy, which decodes 32 bytes with
/// `const_hex::decode_to_array` and makes a k256 signing key of them; that
/// succeeds exactly when their big-endian value is neither zero nor at
/// least the group order. Gives the key's bytes back (`to_bytes`). The text
/// of its error is not stated beyond being a function of the input.
#[verifier::external_body]
fn private_key_from_str(text: &str) -> (res: Result<[u8; 32], String>)
    ensures
        match signing_key_bytes(text.spec_bytes()) {
            Some(b) => res matches Ok(k) && k@ == b,
            None => res matches Err(m) && m@ == private_key_error_text(text.spec_bytes()),
        },
{
    match text.parse::<PrivateKeySigner>() {
        Ok(signer) => Ok(signer.to_bytes().0),
        Err(e) => Err(e.to_string()),
    }
}

/// The text of the error that parsing a refused address text reports.
pub uninterp spec fn address_error_text(text: Seq<u8>) -> Seq<char>;

/// Calls `Address::from_str` of alloy, which decodes the text with
/// `const_hex` into exactly 20 bytes: it accepts an even-length text that,
/// after an optional `0x` or `0X`, holds 40 hex digits of either case. The
/// text of its error is not stated beyond being a function of the input.
#[verifier::external_body]
pub(crate) fn address_from_str(text: &str) -> (res: Result<[u8; 20], String>)
    ensures
        match address_bytes(text.spec_bytes()) {
            Some(b) => res matches Ok(a) && a@ == b,
            None => res matches Err(m) && m@ == address_error_text(text.spec_bytes()),
        },
{
    match text.parse::<Address>() {
        Ok(a) => Ok(a.0.0),
        Err(e) => Err(e.to_string()),
    }
}

/// What parsing a URL gives: its serialization, or the text of the error.
pub uninterp spec fn url_parsing(text: Seq<char>) -> Result<Seq<char>, Seq<char>>;

/// The plain values of a URL parse outcome.
pub open spec fn url_outcome_view(r: Result<String, String>) -> Result<Seq<char>, Seq<char>> {
    match r {
        Ok(u) => Ok(u@),
        Err(m) => Err(m@),
    }
}

/// Calls `reqwest::Url::parse` (the `url` crate's parser) and gives the
/// serialization of the URL or the text of the error. The outcome depends
/// on the text alone and is not stated beyond that.
#[verifier::external_body]
fn url_parse(text: &str) -> (res: Result<String, String>)
    ensures
        url_outcome_view(res) == url_parsing(text@),
{
    match reqwest::Url::parse(text) {
        Ok(u) => Ok(u.to_string()),
        Err(e) => Err(e.to_string()),
    }
}

/// The hex digits of a private key given with or without `0x`.
pub fn private_key_digits(private_key: &str) -> (digits: &str)
    ensures
        digits@ == strip_0x_chars(private_key@),
{
    let n = private_key.unicode_len();
    if n >= 2 && private_key.get_char(0) == '0' && private_key.get_char(1) == 'x' {
        let d = private_key.substring_char(2, n);
        assert(d@ =~= private_key@.skip(2));
        d
    } else {
        private_key
    }
}

/// What connecting needs before its network request: the secret bytes of
/// the signing key and the RPC URL.
pub struct ConnectPlan {
    pub signing_key: [u8; 32],
    pub rpc_url: String,
}

/// A connected client: the contract addresses, the chain it runs on and
/// how many confirmations it waits for.
#[derive(Debug, Clone)]
pub struct EasClient {
    eas_address: [u8; 20],
    schema_registry_address: [u8; 20],
    chain_id: u64,
    confirmations: u64,
}

impl EasClient {
    /// The EAS contract address.
    pub closed spec fn spec_eas_address(&self) -> Seq<u8> {
        self.eas_address@
    }

    /// The schema registry contract address.
    pub closed spec fn spec_schema_registry_address(&self) -> Seq<u8> {
        self.schema_registry_address@
    }

    /// The chain ID.
    pub closed spec fn spec_chain_id(&self) -> u64 {
        self.chain_id
    }

    /// The number of confirmations to wait for.
    pub closed spec fn spec_confirmations(&self) -> u64 {
        self.confirmations
    }

    /// Returns the EAS contract address.
    pub fn eas_address(&self) -> (a: [u8; 20])
        ensures
            a@ == self.spec_eas_address(),
    {
        self.eas_address
    }

    /// Returns the schema registry contract address.
    pub fn schema_registry_address(&self) -> (a: [u8; 20])
        ensures
            a@ == self.spec_schema_registry_address(),
    {
        self.schema_registry_address
    }

    /// Returns the chain ID.
    pub fn chain_id(&self) -> (id: u64)
        ensures
            id == self.spec_chain_id(),
    {
        self.chain_id
    }

    /// Returns the number of confirmations to wait for.
    pub fn confirmations(&self) -> (n: u64)
        ensures
            n == self.spec_confirmations(),
    {
        self.confirmations
    }

    /// First step of connecting: parses the private key (hex, with or
    /// without `0x`), then the RPC URL. Gives the key's secret bytes and the
    /// URL to connect to.
    pub fn connect_prepare(config: &EasConfig, private_key: &str) -> (res: Result<
        ConnectPlan,
        EasError,
    >)
        ensures
            match signing_key_bytes(encode_utf8(strip_0x_chars(private_key@))) {
                None => res matches Err(EasError::Config { message }) && message@
                    == "invalid private key: "@ + private_key_error_text(
                    encode_utf8(strip_0x_chars(private_key@)),
                ),
                Some(k) => match url_parsing(config.rpc_url@) {
                    Ok(u) => res matches Ok(plan) && plan.signing_key@ == k && plan.rpc_url@ == u,
                    Err(m) => res matches Err(EasError::Config { message }) && message@
                        == "invalid RPC URL: "@ + m,
                },
            },
    {
        let digits = private_key_digits(private_key);
        let signing_key = EasClient::signing_key_from_outcome(private_key_from_str(digits))?;
        let rpc_url = EasClient::rpc_url_from_outcome(url_parse(config.rpc_url.as_str()))?;
        Ok(ConnectPlan { signing_key, rpc_url })
    }

    /// The secret bytes of a parsed private key, or the parser's error text
    /// as a configuration error.
    pub fn signing_key_from_outcome(parsed: Result<[u8; 32], String>) -> (res: Result<
        [u8; 32],
        EasError,
    >)
        ensures
            match parsed {
                Ok(k) => res == Ok::<[u8; 32], EasError>(k),
                Err(m) => res matches Err(EasError::Config { message }) && message@
                    == "invalid private key: "@ + m@,
            },
    {
        match parsed {
            Ok(k) => Ok(k),
            Err(m) => Err(EasError::Config { message: joined("invalid private key: ", m.as_str()) }),
        }
    }

    /// The URL to connect to from the outcome of parsing the configured RPC
    /// URL: its serialization, or the parser's error text as a configuration
    /// error.
    pub fn rpc_url_from_outcome(parsed: Result<String, String>) -> (res: Result<String, EasError>)
        ensures
            match parsed {
                Ok(u) => res matches Ok(url) && url@ == u@,
                Err(m) => res matches Err(EasError::Config { message }) && message@
                    == "invalid RPC URL: "@ + m@,
            },
    {
        match parsed {
            Ok(url) => Ok(url),
            Err(m) => Err(EasError::Config { message: joined("invalid RPC URL: ", m.as_str()) }),
        }
    }

    /// Last step of connecting: takes the endpoint's reply to the chain ID
    /// request (the text of the failure if it failed), checks it against the
    /// configured chain, and parses the contract addresses.
    pub fn connect_finish(config: &EasConfig, chain_id_reply: Result<u64, String>) -> (res: Result<
        EasClient,
        EasError,
    >)
        ensures
            match chain_id_reply {
                Err(m) => res matches Err(
                    EasError::Provider(ProviderError::RequestFailed { details }),
                ) && details@ == "failed to get chain ID: "@ + m@,
                Ok(actual) => if actual != config.chain_id {
                    res matches Err(EasError::Provider(ProviderError::ChainIdMismatch { expected, actual: a }))
                        && expected == config.chain_id && a == actual
                } else {
                    connect_outcome(config, res)
                },
            },
            res matches Ok(c) ==> {
                &&& chain_id_reply == Ok::<u64, String>(config.chain_id)
                &&& c.spec_chain_id() == config.chain_id
                &&& c.spec_confirmations() == config.confirmations
                &&& address_bytes(encode_utf8(config.eas_contract_address@)) == Some(
                    c.spec_eas_address(),
                )
                &&& address_bytes(encode_utf8(config.schema_registry_address@)) == Some(
                    c.spec_schema_registry_address(),
                )
            },
    {
        let actual = match chain_id_reply {
            Err(m) => {
                return Err(
                    EasError::Provider(
                        ProviderError::RequestFailed {
                            details: joined("failed to get chain ID: ", m.as_str()),
                        },
                    ),
                );
            },
            Ok(actual) => actual,
        };
        if actual != config.chain_id {
            return Err(
                EasError::Provider(
                    ProviderError::ChainIdMismatch { expected: config.chain_id, actual },
                ),
            );
        }
        let eas_address = match address_from_str(config.eas_contract_address.as_str()) {
            Ok(a) => a,
            Err(m) => {
                return Err(
                    EasError::Config {
                        message: joined("invalid EAS contract address: ", m.as_str()),
                    },
                );
            },
        };
        let schema_registry_address = match address_from_str(
            config.schema_registry_address.as_str(),
        ) {
            Ok(a) => a,
            Err(m) => {
                return Err(
                    EasError::Config {
                        message: joined("invalid schema registry address: ", m.as_str()),
                    },
                );
            },
        };
        Ok(
            EasClient {
                eas_address,
                schema_registry_address,
                chain_id: config.chain_id,
                confirmations: config.confirmations,
            },
        )
    }
}

/// What connecting gives once the chain ID matched: the client, unless a
/// contract address fails to parse (the EAS address first).
pub open spec fn connect_outcome(config: &EasConfig, res: Result<EasClient, EasError>) -> bool {
    let eas = encode_utf8(config.eas_contract_address@);
    let registry = encode_utf8(config.schema_registry_address@);
    match address_bytes(eas) {
        None => res matches Err(EasError::Config { message }) && message@
            == "invalid EAS contract address: "@ + address_error_text(eas),
        Some(e) => match address_bytes(registry) {
            None => res matches Err(EasError::Config { message }) && message@
                == "invalid schema registry address: "@ + address_error_text(registry),
            Some(r) => res matches Ok(c) && c.spec_eas_address() == e
                && c.spec_schema_registry_address() == r && c.spec_chain_id() == config.chain_id
                && c.spec_confirmations() == config.confirmations,
        },
    }
}

/// A client connected under a configuration keeps what the configuration
/// says: it runs on the configured chain, waits for the configured number of
/// confirmations, and talks to the contracts at the configured addresses.
pub proof fn lemma_connected_client_follows_config(config: &EasConfig, res: Result<EasClient, EasError>)
    requires
        connect_outcome(config, res),
    ensures
        res matches Ok(c) ==> {
            &&& c.spec_chain_id() == config.chain_id
            &&& c.spec_confirmations() == config.confirmations
            &&& address_bytes(encode_utf8(config.eas_contract_address@)) == Some(c.spec_eas_address())
            &&& address_bytes(encode_utf8(config.schema_registry_address@)) == Some(
                c.spec_schema_registry_address(),
            )
        },
{
}

/// `0x` followed by 40 hex digits parses as an address.
pub proof fn lemma_address_text_parses(s: Seq<char>)
    requires
        is_address_text(s),
    ensures
        address_bytes(encode_utf8(s)) is Some,
{
    assert(is_ascii_chars(s)) by {
        assert forall|i: int| 0 <= i < s.len() implies '\0' <= #[trigger] s[i] <= '\u{7f}' by {
            if i >= 2 {
                let c = s[i];
                assert(('0' <= c <= '9') || ('a' <= c <= 'f') || ('A' <= c <= 'F'));
            }
        }
    }
    is_ascii_chars_encode_utf8(s);
    let b = encode_utf8(s);
    assert(b[0] == s[0] as u8);
    assert(b[1] == s[1] as u8);
    let d = strip_0x_either_case(b);
    assert(d =~= b.skip(2));
    assert forall|i: int| 0 <= i < d.len() implies crate::hexcodec::is_hex_digit(#[trigger] d[i]) by {
        assert(d[i] == b[i + 2]);
        assert(b[i + 2] == s[i + 2] as u8);
        let c = s[i + 2];
        assert(('0' <= c <= '9') || ('a' <= c <= 'f') || ('A' <= c <= 'F'));
    }
}

/// Both contract addresses of every supported chain parse, so a
/// configuration made for a supported chain connects once the endpoint
/// reports that chain's ID.
pub proof fn lemma_known_chain_addresses_parse(chain_id: u64)
    ensures
        known_chain(chain_id) matches Some(f) ==> address_bytes(encode_utf8(f.2)) is Some
            && address_bytes(encode_utf8(f.3)) is Some,
{
    lemma_known_addresses_well_formed(chain_id);
    if let Some(f) = known_chain(chain_id) {
        lemma_address_text_parses(f.2);
        lemma_address_text_parses(f.3);
    }
}

} // verus!
