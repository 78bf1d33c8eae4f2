//! ABI encoding and decoding of EAS attestation data.
//!
//! EAS schemas define the structure of attestation data as Solidity types.
//! The full payload has the schema
//! `bytes32 dataHash, string description, uint64 timestamp`; the simple
//! payload has the schema `bytes32 dataHash`. This module turns inputs into
//! ABI-encoded bytes and decodes them back.

use vstd::prelude::*;
use vstd::string::*;
use vstd::utf8::*;

use alloy::primitives::FixedBytes;
use alloy::sol_types::SolValue;

use crate::error::{EasError, EncodingError};
use crate::hexcodec::{
    decode_hex_text, hex_decode_error_text, hex_decode_spec, hex_lower, lower_digit, prefixed_hex, strip_0x,
    lemma_hex_roundtrip, lemma_strip_prefixed_hex, lemma_hex_lower_ascii, all_hex_digits,
    hex_bytes, hex_value, is_hex_digit, strip_0x_chars, ascii_lower, lowercase_digits,
    lemma_ascii_bytes_ascii_chars, lemma_lower_digit_of_hex,
};

verus! {

/// `256` to the power `k`.
pub open spec fn pow256(k: nat) -> nat
    decreases k,
{
    if k == 0 {
        1
    } else {
        256 * pow256((k - 1) as nat)
    }
}

/// A 32-byte ABI word holding `n` big-endian.
pub open spec fn word(n: nat) -> Seq<u8> {
    Seq::new(32, |i: int| ((n / pow256((31 - i) as nat)) % 256) as u8)
}

/// `b` followed by zero bytes up to the next multiple of 32 bytes.
pub open spec fn padded(b: Seq<u8>) -> Seq<u8> {
    b + Seq::new(((32 - b.len() % 32) % 32) as nat, |i: int| 0u8)
}

/// The ABI encoding, as one value, of the tuple
/// `(bytes32 hash, string description, uint64 timestamp)` where
/// `description` gives the UTF-8 bytes of the string: the offset of the
/// tuple (32), the hash, the offset of the string within the tuple (96), the
/// timestamp, the byte length of the string, and its bytes padded to a
/// multiple of 32.
pub open spec fn attestation_abi(hash: Seq<u8>, description: Seq<u8>, timestamp: u64) -> Seq<u8> {
    word(32) + hash + word(96) + word(timestamp as nat) + word(description.len()) + padded(
        description,
    )
}

/// What the ABI decoder of `(bytes32, string, uint64)` gives for some
/// bytes: the hash, the description and the timestamp, or the text of its
/// error.
pub uninterp spec fn abi_attestation_decoding(data: Seq<u8>) -> Result<
    (Seq<u8>, Seq<char>, u64),
    Seq<char>,
>;

/// What the ABI decoder of `(bytes32)` gives for some bytes: the hash, or
/// the text of its error.
pub uninterp spec fn abi_simple_decoding(data: Seq<u8>) -> Result<Seq<u8>, Seq<char>>;

/// The plain values of a decoded full payload, or of the decoder's error.
pub open spec fn attestation_decoding_view(r: Result<([u8; 32], String, u64), String>) -> Result<
    (Seq<u8>, Seq<char>, u64),
    Seq<char>,
> {
    match r {
        Ok((h, d, t)) => Ok((h@, d@, t)),
        Err(m) => Err(m@),
    }
}

/// The plain value of a decoded simple payload, or of the decoder's error.
pub open spec fn simple_decoding_view(r: Result<[u8; 32], String>) -> Result<Seq<u8>, Seq<char>> {
    match r {
        Ok(h) => Ok(h@),
        Err(m) => Err(m@),
    }
}

/// The most bytes the ABI decoder lets one decoding allocate for the
/// strings it decodes: 1 GiB.
pub open spec fn abi_memory_limit() -> nat {
    0x4000_0000
}

/// When the input is the encoding of a tuple with a 32-byte hash, it decodes
/// to that tuple if the description fits in the decoder's memory limit, and
/// is refused if it does not. Input of fewer than 32 bytes, which cannot hold
/// the tuple's offset, is refused.
pub open spec fn decodes_encoded_tuple(
    data: Seq<u8>,
    r: Result<([u8; 32], String, u64), String>,
) -> bool {
    &&& data.len() < 32 ==> r is Err
    &&& forall|h: Seq<u8>, d: Seq<char>, t: u64|
        #![trigger attestation_abi(h, encode_utf8(d), t)]
        h.len() == 32 && data == attestation_abi(h, encode_utf8(d), t) ==> if encode_utf8(d).len()
            <= abi_memory_limit() {
            attestation_decoding_view(r) == Ok::<(Seq<u8>, Seq<char>, u64), Seq<char>>((h, d, t))
        } else {
            r is Err
        }
}

/// Input of at least 32 bytes decodes, as `(bytes32)`, to its first 32
/// bytes; shorter input is refused.
pub open spec fn decodes_hash_word(data: Seq<u8>, r: Result<[u8; 32], String>) -> bool {
    if data.len() >= 32 {
        simple_decoding_view(r) == Ok::<Seq<u8>, Seq<char>>(data.take(32))
    } else {
        r is Err
    }
}

/// Calls `SolValue::abi_encode` on the tuple `(FixedBytes<32>, String, u64)`,
/// the layout of the full attestation payload. Claimed: the result is the
/// ABI encoding of the tuple as a single dynamic value, as `attestation_abi`
/// spells it out.
#[verifier::external_body]
fn abi_encode_attestation(hash: &[u8; 32], description: &str, timestamp: u64) -> (res: Vec<u8>)
    ensures
        res@ == attestation_abi(hash@, description.spec_bytes(), timestamp),
{
    (FixedBytes::<32>::from(*hash), description.to_string(), timestamp).abi_encode()
}

/// Calls `SolValue::abi_encode` on the one-element tuple `(FixedBytes<32>,)`,
/// the layout of the simple payload. Claimed: a static tuple of one
/// `bytes32` encodes as its 32 bytes.
#[verifier::external_body]
fn abi_encode_simple(hash: &[u8; 32]) -> (res: Vec<u8>)
    ensures
        res@ == hash@,
{
    (FixedBytes::<32>::from(*hash),).abi_encode()
}

/// Calls `SolValue::abi_decode` for `(FixedBytes<32>, String, u64)`, with
/// the decoder's default configuration (not strict, 1 GiB memory limit).
/// Claimed: the result is a function of the input (named by
/// `abi_attestation_decoding`); fewer than 32 bytes are refused; the
/// encoding of a tuple decodes back to that tuple when its description
/// takes at most 1 GiB, and is refused otherwise. What other inputs give,
/// and the text of each error, are not stated.
#[verifier::external_body]
fn abi_decode_attestation(data: &[u8]) -> (res: Result<([u8; 32], String, u64), String>)
    ensures
        attestation_decoding_view(res) == abi_attestation_decoding(data@),
        decodes_encoded_tuple(data@, res),
{
    match <(FixedBytes<32>, String, u64) as SolValue>::abi_decode(data) {
        Ok((h, d, t)) => Ok((h.0, d, t)),
        Err(e) => Err(e.to_string()),
    }
}

/// Calls `SolValue::abi_decode` for `(FixedBytes<32>,)`, with the decoder's
/// default configuration, which ignores trailing bytes. Claimed: the result
/// is a function of the input (named by `abi_simple_decoding`); input of at
/// least 32 bytes decodes to its first 32 bytes, and shorter input is
/// refused. The text of the error is not stated.
#[verifier::external_body]
fn abi_decode_simple(data: &[u8]) -> (res: Result<[u8; 32], String>)
    ensures
        simple_decoding_view(res) == abi_simple_decoding(data@),
        decodes_hash_word(data@, res),
{
    match <(FixedBytes<32>,) as SolValue>::abi_decode(data) {
        Ok((h,)) => Ok(h.0),
        Err(e) => Err(e.to_string()),
    }
}

/// The 32 bytes that a hash text denotes: its hex digits after an optional
/// leading `0x`, when they decode to exactly 32 bytes.
pub open spec fn hash_bytes32(text: Seq<u8>) -> Option<Seq<u8>> {
    match hex_decode_spec(strip_0x(text)) {
        Some(b) => if b.len() == 32 {
            Some(b)
        } else {
            None
        },
        None => None,
    }
}

/// The error that a hash text which does not denote 32 bytes is refused
/// with: invalid hex when its digits do not decode, else the wrong length.
pub open spec fn hash_text_error(text: Seq<u8>, e: EasError) -> bool {
    match hex_decode_spec(strip_0x(text)) {
        None => e matches EasError::Encoding(EncodingError::InvalidHex { details })
            && details@ == hex_decode_error_text(strip_0x(text)),
        Some(b) => e matches EasError::Encoding(
            EncodingError::InvalidDataLength { expected, actual },
        ) && expected == 32 && actual == b.len(),
    }
}

/// Copies 32 bytes into an array.
pub fn to_array32(v: &Vec<u8>) -> (a: [u8; 32])
    requires
        v@.len() == 32,
    ensures
        a@ == v@,
{
    let mut a = [0u8; 32];
    let mut i: usize = 0;
    while i < 32
        invariant
            i <= 32,
            v@.len() == 32,
            forall|j: int| 0 <= j < i ==> a@[j] == v@[j],
        decreases 32 - i,
    {
        a[i] = v[i];
        i = i + 1;
    }
    assert(a@ =~= v@);
    a
}

/// The 32 bytes of a decoded hash text: refused as invalid hex when the
/// digits did not decode (`decoded` holds the decoder's error text), and
/// for the wrong length when they decoded to other than 32 bytes.
pub fn bytes32_from_hex_outcome(decoded: Result<Vec<u8>, String>) -> (res: Result<
    [u8; 32],
    EasError,
>)
    ensures
        match decoded {
            Ok(v) => if v@.len() == 32 {
                res matches Ok(a) && a@ == v@
            } else {
                res matches Err(EasError::Encoding(EncodingError::InvalidDataLength { expected, actual }))
                    && expected == 32 && actual == v@.len()
            },
            Err(m) => res matches Err(EasError::Encoding(EncodingError::InvalidHex { details }))
                && details@ == m@,
        },
{
    match decoded {
        Err(details) => Err(EasError::Encoding(EncodingError::InvalidHex { details })),
        Ok(bytes) => {
            let actual = bytes.len();
            if actual == 32 {
                Ok(to_array32(&bytes))
            } else {
                Err(EasError::Encoding(EncodingError::InvalidDataLength { expected: 32, actual }))
            }
        },
    }
}

/// Parses a hex text, `0x`-prefixed or raw, into exactly 32 bytes.
pub fn parse_bytes32(hex_str: &str) -> (res: Result<[u8; 32], EasError>)
    ensures
        match hash_bytes32(hex_str.spec_bytes()) {
            Some(b) => res matches Ok(a) && a@ == b,
            None => res matches Err(e) && hash_text_error(hex_str.spec_bytes(), e),
        },
{
    bytes32_from_hex_outcome(decode_hex_text(hex_str))
}

/// Encodes a full attestation payload.
///
/// `data_hash` is a 32-byte hash as hex, `0x`-prefixed or raw;
/// `description` says what was attested; `timestamp` is a Unix time in
/// seconds. The hash text is refused as `parse_bytes32` refuses it.
pub fn encode_attestation(data_hash: &str, description: &str, timestamp: u64) -> (res: Result<
    Vec<u8>,
    EasError,
>)
    ensures
        match hash_bytes32(data_hash.spec_bytes()) {
            Some(b) => res matches Ok(v) && v@ == attestation_abi(
                b,
                description.spec_bytes(),
                timestamp,
            ),
            None => res matches Err(e) && hash_text_error(data_hash.spec_bytes(), e),
        },
{
    let hash = parse_bytes32(data_hash)?;
    Ok(abi_encode_attestation(&hash, description, timestamp))
}

/// The result of decoding a full payload from what the ABI decoder gave:
/// the hash as `0x` followed by lowercase hex, the description and the
/// timestamp; or the decoder's error text as an ABI decoding failure.
pub fn attestation_from_abi_outcome(decoded: Result<([u8; 32], String, u64), String>) -> (res:
    Result<(String, String, u64), EasError>)
    ensures
        match decoded {
            Ok((h, d, t)) => res matches Ok(r) && r.0@ == "0x"@ + hex_lower(h@) && r.1@ == d@
                && r.2 == t,
            Err(m) => res matches Err(EasError::Encoding(EncodingError::AbiDecodingFailed { details }))
                && details@ == m@,
        },
{
    match decoded {
        Ok((hash, description, timestamp)) => {
            let text = prefixed_hex(&hash);
            Ok((text, description, timestamp))
        },
        Err(details) => Err(EasError::Encoding(EncodingError::AbiDecodingFailed { details })),
    }
}

/// Decodes an ABI-encoded full attestation payload into the hash (as `0x`
/// followed by lowercase hex), the description and the timestamp.
///
/// What `encode_attestation` gives for a hash text, a description and a
/// timestamp decodes back to `0x` and the hash text's digits in lower case,
/// the description and the timestamp, when the description takes at most
/// 1 GiB; a longer description, or input of fewer than 32 bytes, is refused.
pub fn decode_attestation(data: &[u8]) -> (res: Result<(String, String, u64), EasError>)
    ensures
        match abi_attestation_decoding(data@) {
            Ok((h, d, t)) => res matches Ok(r) && r.0@ == "0x"@ + hex_lower(h) && r.1@ == d && r.2
                == t,
            Err(m) => res matches Err(EasError::Encoding(EncodingError::AbiDecodingFailed { details }))
                && details@ == m,
        },
        data@.len() < 32 ==> res matches Err(
            EasError::Encoding(EncodingError::AbiDecodingFailed { .. }),
        ),
        forall|h: Seq<u8>, d: Seq<char>, t: u64|
            #![trigger attestation_abi(h, encode_utf8(d), t)]
            h.len() == 32 && data@ == attestation_abi(h, encode_utf8(d), t) ==> if encode_utf8(
                d,
            ).len() <= abi_memory_limit() {
                res matches Ok(r) && r.0@ == "0x"@ + hex_lower(h) && r.1@ == d && r.2 == t
            } else {
                res matches Err(EasError::Encoding(EncodingError::AbiDecodingFailed { .. }))
            },
        forall|h: Seq<char>, d: Seq<char>, t: u64|
            #![trigger attestation_abi(hash_bytes32(encode_utf8(h))->0, encode_utf8(d), t)]
            hash_bytes32(encode_utf8(h)) is Some && encode_utf8(d).len() <= abi_memory_limit()
                && data@ == attestation_abi(hash_bytes32(encode_utf8(h))->0, encode_utf8(d), t)
                ==> (res matches Ok(r) && r.0@ == "0x"@ + lowercase_digits(h) && r.1@ == d && r.2
                == t),
{
    let res = attestation_from_abi_outcome(abi_decode_attestation(data));
    proof {
        assert forall|h: Seq<char>, d: Seq<char>, t: u64|
            #![trigger attestation_abi(hash_bytes32(encode_utf8(h))->0, encode_utf8(d), t)]
            hash_bytes32(encode_utf8(h)) is Some && encode_utf8(d).len() <= abi_memory_limit()
                && data@ == attestation_abi(
                hash_bytes32(encode_utf8(h))->0,
                encode_utf8(d),
                t,
            ) implies (res matches Ok(r) && r.0@ == "0x"@ + lowercase_digits(h) && r.1@ == d
            && r.2 == t) by {
            lemma_hash_hex_is_lowercased_text(h);
        }
    }
    res
}

/// Encodes a simple attestation payload: just the data hash.
pub fn encode_simple(data_hash: &str) -> (res: Result<Vec<u8>, EasError>)
    ensures
        match hash_bytes32(data_hash.spec_bytes()) {
            Some(b) => res matches Ok(v) && v@ == b,
            None => res matches Err(e) && hash_text_error(data_hash.spec_bytes(), e),
        },
{
    let hash = parse_bytes32(data_hash)?;
    Ok(abi_encode_simple(&hash))
}

/// The result of decoding a simple payload from what the ABI decoder gave:
/// the hash as `0x` followed by lowercase hex, or the decoder's error text
/// as an ABI decoding failure.
pub fn hash_from_abi_outcome(decoded: Result<[u8; 32], String>) -> (res: Result<String, EasError>)
    ensures
        match decoded {
            Ok(h) => res matches Ok(s) && s@ == "0x"@ + hex_lower(h@),
            Err(m) => res matches Err(EasError::Encoding(EncodingError::AbiDecodingFailed { details }))
                && details@ == m@,
        },
{
    match decoded {
        Ok(hash) => Ok(prefixed_hex(&hash)),
        Err(details) => Err(EasError::Encoding(EncodingError::AbiDecodingFailed { details })),
    }
}

/// Decodes a simple attestation payload into its hash, as `0x` followed by
/// lowercase hex.
///
/// Input of at least 32 bytes gives its first 32 bytes; so what
/// `encode_simple` gives for a hash text decodes back to `0x` and the
/// text's digits in lower case. Shorter input is refused.
pub fn decode_simple(data: &[u8]) -> (res: Result<String, EasError>)
    ensures
        match abi_simple_decoding(data@) {
            Ok(h) => res matches Ok(s) && s@ == "0x"@ + hex_lower(h),
            Err(m) => res matches Err(EasError::Encoding(EncodingError::AbiDecodingFailed { details }))
                && details@ == m,
        },
        data@.len() >= 32 ==> (res matches Ok(s) && s@ == "0x"@ + hex_lower(data@.take(32))),
        data@.len() < 32 ==> res matches Err(
            EasError::Encoding(EncodingError::AbiDecodingFailed { .. }),
        ),
        forall|h: Seq<char>|
            #![trigger hash_bytes32(encode_utf8(h))]
            hash_bytes32(encode_utf8(h)) == Some(data@) ==> (res matches Ok(s) && s@ == "0x"@
                + lowercase_digits(h)),
{
    let res = hash_from_abi_outcome(abi_decode_simple(data));
    proof {
        assert forall|h: Seq<char>|
            #![trigger hash_bytes32(encode_utf8(h))]
            hash_bytes32(encode_utf8(h)) == Some(data@) implies (res matches Ok(s) && s@ == "0x"@
                + lowercase_digits(h)) by {
            lemma_hash_hex_is_lowercased_text(h);
            assert(data@.take(32) =~= data@);
        }
    }
    res
}

/// An ASCII character whose byte is `b` is the character `b`.
proof fn lemma_ascii_char_of_byte(c: char, d: char)
    requires
        (c as u32) < 128,
        (d as u32) < 128,
        (c as u8) == (d as u8),
    ensures
        c == d,
{
    assert((c as u8) as u32 == c as u32);
    assert((d as u8) as u32 == d as u32);
    char_u32_cast(c, c as u32);
    char_u32_cast(d, d as u32);
}

/// The lowercase hex of the 32 bytes that a hash text denotes is the text
/// itself, after an optional `0x`, in lower case: decoding an encoded hash
/// gives back `0x` and the input's digits in lower case.
pub proof fn lemma_hash_hex_is_lowercased_text(h: Seq<char>)
    requires
        hash_bytes32(encode_utf8(h)) is Some,
    ensures
        hex_lower(hash_bytes32(encode_utf8(h))->0) == lowercase_digits(h),
{
    let e = encode_utf8(h);
    let d = strip_0x(e);
    let stripped = e.len() >= 2 && e[0] == 48 && e[1] == 120;
    let off: int = if stripped { 2 } else { 0 };
    assert(d.len() % 2 == 0 && all_hex_digits(d));
    let b = hex_bytes(d);
    assert(b.len() == 32);
    assert forall|i: int| 0 <= i < e.len() implies #[trigger] e[i] < 128 by {
        if stripped && i < 2 {
        } else {
            assert(d[i - off] == e[i]);
            assert(is_hex_digit(d[i - off]));
        }
    }
    lemma_ascii_bytes_ascii_chars(h);
    is_ascii_chars_encode_utf8(h);
    let t = strip_0x_chars(h);
    let th = h.len() >= 2 && h[0] == '0' && h[1] == 'x';
    assert(stripped == th) by {
        if h.len() >= 2 {
            assert(h[0] as u8 == e[0]);
            assert(h[1] as u8 == e[1]);
            assert('\0' <= h[0] <= '\u{7f}');
            assert('\0' <= h[1] <= '\u{7f}');
            if e[0] == 48 {
                lemma_ascii_char_of_byte(h[0], '0');
            }
            if e[1] == 120 {
                lemma_ascii_char_of_byte(h[1], 'x');
            }
        }
    }
    assert(t.len() == d.len());
    let lo = lowercase_digits(h);
    assert forall|i: int| 0 <= i < d.len() implies #[trigger] hex_lower(b)[i] == lo[i] by {
        assert(t[i] == h[i + off]);
        assert(h[i + off] as u8 == e[i + off]);
        assert(d[i] == e[i + off]);
        assert('\0' <= h[i + off] <= '\u{7f}');
        lemma_lower_digit_of_hex(t[i]);
        let k = i / 2;
        let hi = hex_value(d[2 * k]);
        let lw = hex_value(d[2 * k + 1]);
        assert(is_hex_digit(d[2 * k]) && is_hex_digit(d[2 * k + 1]));
        assert(0 <= hi < 16 && 0 <= lw < 16);
        assert(b[k] == (hi * 16 + lw) as u8);
        assert(b[k] / 16 == hi && b[k] % 16 == lw);
        if i % 2 == 0 {
            assert(2 * k == i);
        } else {
            assert(2 * k + 1 == i);
        }
    }
    assert(hex_lower(b) =~= lo);
}

/// A hash written as `0x` followed by the lowercase hex of 32 bytes denotes
/// those bytes; so does the lowercase hex without the prefix.
pub proof fn lemma_hash_text_of_bytes(b: Seq<u8>)
    requires
        b.len() == 32,
    ensures
        hash_bytes32(encode_utf8("0x"@ + hex_lower(b))) == Some(b),
        hash_bytes32(encode_utf8(hex_lower(b))) == Some(b),
{
    lemma_strip_prefixed_hex(b);
    lemma_hex_roundtrip(b);
    lemma_hex_lower_ascii(b);
    is_ascii_chars_encode_utf8(hex_lower(b));
    let e = encode_utf8(hex_lower(b));
    assert(e[1] == hex_lower(b)[1] as u8);
    let d = (b[0] % 16) as int;
    assert(0 <= d < 16);
    assert(hex_lower(b)[1] == lower_digit(d));
    assert(strip_0x(e) == e);
}

/// `256^k` is positive and `256^(k+1) = 256^k * 256`.
proof fn lemma_pow256_step(k: nat)
    ensures
        pow256(k) > 0,
        pow256(k + 1) == pow256(k) * 256,
    decreases k,
{
    if k > 0 {
        lemma_pow256_step((k - 1) as nat);
    }
}

/// Two numbers below `256^8` whose words agree agree on their quotients by
/// `256^k`, for `k` from 8 down.
proof fn lemma_word_quotients(a: nat, b: nat, k: nat)
    requires
        k <= 8,
        a < pow256(8),
        b < pow256(8),
        word(a) == word(b),
    ensures
        a / pow256(k) == b / pow256(k),
    decreases 8 - k,
{
    lemma_pow256_step(k);
    if k == 8 {
        vstd::arithmetic::div_mod::lemma_basic_div(a as int, pow256(8) as int);
        vstd::arithmetic::div_mod::lemma_basic_div(b as int, pow256(8) as int);
    } else {
        lemma_word_quotients(a, b, k + 1);
        let i = 31 - k;
        assert(word(a)[i] == word(b)[i]);
        let qa = a / pow256(k);
        let qb = b / pow256(k);
        assert(word(a)[i] == (qa % 256) as u8);
        assert(word(b)[i] == (qb % 256) as u8);
        assert(qa % 256 == qb % 256);
        vstd::arithmetic::div_mod::lemma_div_denominator(a as int, pow256(k) as int, 256);
        vstd::arithmetic::div_mod::lemma_div_denominator(b as int, pow256(k) as int, 256);
        vstd::arithmetic::div_mod::lemma_fundamental_div_mod(qa as int, 256);
        vstd::arithmetic::div_mod::lemma_fundamental_div_mod(qb as int, 256);
    }
}

/// The word of a number below `256^8` determines the number.
pub proof fn lemma_word_injective(a: nat, b: nat)
    requires
        a < pow256(8),
        b < pow256(8),
        word(a) == word(b),
    ensures
        a == b,
{
    lemma_word_quotients(a, b, 0);
    assert(pow256(0) == 1);
    assert(a / 1 == a && b / 1 == b);
}

/// Distinct full payloads never share an encoding: the encoding determines
/// the hash, the description and the timestamp (for descriptions of fewer
/// than `2^64` bytes).
pub proof fn lemma_attestation_abi_injective(
    h1: Seq<u8>,
    d1: Seq<char>,
    t1: u64,
    h2: Seq<u8>,
    d2: Seq<char>,
    t2: u64,
)
    requires
        h1.len() == 32,
        h2.len() == 32,
        encode_utf8(d1).len() < pow256(8),
        encode_utf8(d2).len() < pow256(8),
        attestation_abi(h1, encode_utf8(d1), t1) == attestation_abi(h2, encode_utf8(d2), t2),
    ensures
        h1 == h2,
        d1 == d2,
        t1 == t2,
{
    let e1 = encode_utf8(d1);
    let e2 = encode_utf8(d2);
    let l1 = attestation_abi(h1, e1, t1);
    let l2 = attestation_abi(h2, e2, t2);
    assert(l1.subrange(32, 64) =~= h1);
    assert(l2.subrange(32, 64) =~= h2);
    assert(l1.subrange(96, 128) =~= word(t1 as nat));
    assert(l2.subrange(96, 128) =~= word(t2 as nat));
    assert(l1.subrange(128, 160) =~= word(e1.len()));
    assert(l2.subrange(128, 160) =~= word(e2.len()));
    lemma_pow256_step(0);
    lemma_pow256_step(1);
    lemma_pow256_step(2);
    lemma_pow256_step(3);
    lemma_pow256_step(4);
    lemma_pow256_step(5);
    lemma_pow256_step(6);
    lemma_pow256_step(7);
    assert(pow256(8) == 0x1_0000_0000_0000_0000nat);
    lemma_word_injective(t1 as nat, t2 as nat);
    lemma_word_injective(e1.len(), e2.len());
    assert(l1.subrange(160, 160 + e1.len() as int) =~= e1);
    assert(l2.subrange(160, 160 + e2.len() as int) =~= e2);
    encode_utf8_decode_utf8(d1);
    encode_utf8_decode_utf8(d2);
}

} // verus!
