//! Hexadecimal text: what the `hex` crate decodes and encodes, the `0x`
//! prefix, and the laws that tie decoding and encoding together.

use vstd::prelude::*;
use vstd::string::*;
use vstd::utf8::*;

verus! {

/// An ASCII hex digit: `0-9`, `a-f` or `A-F`.
pub open spec fn is_hex_digit(b: u8) -> bool {
    (48 <= b <= 57) || (97 <= b <= 102) || (65 <= b <= 70)
}

/// The value of an ASCII hex digit.
pub open spec fn hex_value(b: u8) -> int {
    if 48 <= b <= 57 {
        b - 48
    } else if 97 <= b <= 102 {
        b - 87
    } else {
        b - 55
    }
}

/// Every byte of `s` is a hex digit.
pub open spec fn all_hex_digits(s: Seq<u8>) -> bool {
    forall|i: int| 0 <= i < s.len() ==> is_hex_digit(#[trigger] s[i])
}

/// The bytes that a hex text of even length denotes, two digits per byte,
/// the high digit first.
pub open spec fn hex_bytes(s: Seq<u8>) -> Seq<u8> {
    Seq::new(s.len() / 2, |i: int| (hex_value(s[2 * i]) * 16 + hex_value(s[2 * i + 1])) as u8)
}

/// What `hex::decode` gives for a text: its bytes when the text has an even
/// number of bytes that are all hex digits, and nothing otherwise.
pub open spec fn hex_decode_spec(s: Seq<u8>) -> Option<Seq<u8>> {
    if s.len() % 2 == 0 && all_hex_digits(s) {
        Some(hex_bytes(s))
    } else {
        None
    }
}

/// The lowercase hex digit of a value below 16.
pub open spec fn lower_digit(n: int) -> char
    recommends
        0 <= n < 16,
{
    seq!['0', '1', '2', '3', '4', '5', '6', '7', '8', '9', 'a', 'b', 'c', 'd', 'e', 'f'][n]
}

/// The lowercase hex text of some bytes, two digits per byte, the high
/// digit first.
pub open spec fn hex_lower(b: Seq<u8>) -> Seq<char> {
    Seq::new(
        2 * b.len(),
        |i: int|
            if i % 2 == 0 {
                lower_digit((b[i / 2] / 16) as int)
            } else {
                lower_digit((b[i / 2] % 16) as int)
            },
    )
}

/// The bytes of a text with one leading `0x` removed, if it has one.
pub open spec fn strip_0x(b: Seq<u8>) -> Seq<u8> {
    if b.len() >= 2 && b[0] == 48 && b[1] == 120 {
        b.skip(2)
    } else {
        b
    }
}

/// The characters of a text with one leading `0x` removed, if it has one.
pub open spec fn strip_0x_chars(s: Seq<char>) -> Seq<char> {
    if s.len() >= 2 && s[0] == '0' && s[1] == 'x' {
        s.skip(2)
    } else {
        s
    }
}

/// An ASCII letter in lower case; other characters unchanged.
pub open spec fn ascii_lower(c: char) -> char {
    if 'A' <= c <= 'Z' {
        ((c as u32) + 32) as char
    } else {
        c
    }
}

/// The text after an optional leading `0x`, in lower case.
pub open spec fn lowercase_digits(text: Seq<char>) -> Seq<char> {
    strip_0x_chars(text).map_values(|c: char| ascii_lower(c))
}

/// The text of the error that `hex::decode` reports for a text it refuses.
pub uninterp spec fn hex_decode_error_text(data: Seq<u8>) -> Seq<char>;

/// Calls `hex::decode`. It succeeds exactly on texts of even length made of
/// hex digits (either case) and gives the bytes they denote; on other texts
/// it gives the text of its `FromHexError`, which is not stated here beyond
/// being a function of the input.
#[verifier::external_body]
pub(crate) fn hex_decode(data: &[u8]) -> (res: Result<Vec<u8>, String>)
    ensures
        match hex_decode_spec(data@) {
            Some(b) => res matches Ok(v) && v@ == b,
            None => res matches Err(m) && m@ == hex_decode_error_text(data@),
        },
{
    match hex::decode(data) {
        Ok(v) => Ok(v),
        Err(e) => Err(e.to_string()),
    }
}

/// Calls `hex::encode`, which writes each byte as two lowercase hex digits,
/// the high digit first.
#[verifier::external_body]
pub(crate) fn hex_encode(data: &[u8]) -> (s: String)
    ensures
        s@ == hex_lower(data@),
{
    hex::encode(data)
}

/// Decodes the hex digits of a text that may start with `0x`.
pub fn decode_hex_text(text: &str) -> (res: Result<Vec<u8>, String>)
    ensures
        match hex_decode_spec(strip_0x(text.spec_bytes())) {
            Some(b) => res matches Ok(v) && v@ == b,
            None => res matches Err(m) && m@ == hex_decode_error_text(
                strip_0x(text.spec_bytes()),
            ),
        },
{
    let bytes = text.as_bytes();
    let n = bytes.len();
    let start: usize = if n >= 2 && bytes[0] == 48u8 && bytes[1] == 120u8 {
        2
    } else {
        0
    };
    let mut body: Vec<u8> = Vec::new();
    let mut i: usize = start;
    while i < n
        invariant
            start <= i <= n,
            n == bytes@.len(),
            body@ == bytes@.subrange(start as int, i as int),
        decreases n - i,
    {
        body.push(bytes[i]);
        i = i + 1;
        assert(body@ =~= bytes@.subrange(start as int, i as int));
    }
    assert(body@ =~= strip_0x(text.spec_bytes()));
    hex_decode(body.as_slice())
}

/// The text `0x` followed by the lowercase hex digits of `data`.
pub fn prefixed_hex(data: &[u8]) -> (s: String)
    ensures
        s@ == "0x"@ + hex_lower(data@),
{
    let h = hex_encode(data);
    String::from_str("0x").concat(h.as_str())
}

/// The lowercase hex text of some bytes is ASCII, and its bytes are its
/// characters.
pub proof fn lemma_hex_lower_ascii(b: Seq<u8>)
    ensures
        is_ascii_chars(hex_lower(b)),
        is_ascii_chars("0x"@ + hex_lower(b)),
{
    reveal_strlit("0x");
    assert forall|i: int| 0 <= i < hex_lower(b).len() implies '\0' <= #[trigger] hex_lower(
        b,
    )[i] <= '\u{7f}' by {
        let d = if i % 2 == 0 {
            b[i / 2] / 16
        } else {
            b[i / 2] % 16
        };
        assert(0 <= d < 16);
    }
    let t = "0x"@ + hex_lower(b);
    assert forall|i: int| 0 <= i < t.len() implies '\0' <= #[trigger] t[i] <= '\u{7f}' by {
        if i >= 2 {
            assert(t[i] == hex_lower(b)[i - 2]);
        }
    }
}

/// Decoding the lowercase hex text of some bytes gives those bytes back.
pub proof fn lemma_hex_roundtrip(b: Seq<u8>)
    ensures
        hex_decode_spec(encode_utf8(hex_lower(b))) == Some(b),
{
    let t = hex_lower(b);
    lemma_hex_lower_ascii(b);
    is_ascii_chars_encode_utf8(t);
    let e = encode_utf8(t);
    assert forall|i: int| 0 <= i < e.len() implies is_hex_digit(#[trigger] e[i]) && (i % 2 == 0
        ==> hex_value(e[i]) == b[i / 2] / 16) && (i % 2 == 1 ==> hex_value(e[i]) == b[i / 2]
        % 16) by {
        assert(t[i] as u8 == e[i]);
    }
    assert(e.len() % 2 == 0);
    assert forall|i: int| 0 <= i < b.len() implies #[trigger] hex_bytes(e)[i] == b[i] by {
        assert(hex_value(e[2 * i]) == b[i] / 16);
        assert(hex_value(e[2 * i + 1]) == b[i] % 16);
    }
    assert(hex_bytes(e) =~= b);
}

/// Removing the `0x` from `0x` followed by lowercase hex digits leaves the
/// bytes of the digits.
pub proof fn lemma_strip_prefixed_hex(b: Seq<u8>)
    ensures
        strip_0x(encode_utf8("0x"@ + hex_lower(b))) == encode_utf8(hex_lower(b)),
{
    reveal_strlit("0x");
    lemma_hex_lower_ascii(b);
    let t = "0x"@ + hex_lower(b);
    is_ascii_chars_encode_utf8(t);
    is_ascii_chars_encode_utf8(hex_lower(b));
    let e = encode_utf8(t);
    assert(e[0] == t[0] as u8);
    assert(e[1] == t[1] as u8);
    assert(e.skip(2) =~= encode_utf8(hex_lower(b))) by {
        assert forall|i: int| 0 <= i < e.len() - 2 implies #[trigger] e.skip(2)[i] == encode_utf8(
            hex_lower(b),
        )[i] by {
            assert(t[i + 2] == hex_lower(b)[i]);
            assert(e[i + 2] == t[i + 2] as u8);
        }
    }
}

/// A character whose code is below 128 is ASCII.
proof fn lemma_char_below_128(c: char)
    requires
        (c as u32) <= 127,
    ensures
        '\0' <= c <= '\u{7f}',
{
    assert(('\u{7f}' as u32) == 127);
    assert(c as u32 <= '\u{7f}' as u32);
    assert(('\0' as u32) == 0);
    assert('\0' as u32 <= c as u32);
}

/// A text whose UTF-8 bytes are all below 128 is ASCII.
pub proof fn lemma_ascii_bytes_ascii_chars(s: Seq<char>)
    requires
        forall|i: int| 0 <= i < encode_utf8(s).len() ==> #[trigger] encode_utf8(s)[i] < 128,
    ensures
        is_ascii_chars(s),
    decreases s.len(),
{
    if s.len() > 0 {
        let v = s[0] as u32;
        let e = encode_scalar(v);
        let rest = encode_utf8(s.drop_first());
        assert(encode_utf8(s) == e + rest);
        assert(e.len() >= 1);
        assert(encode_utf8(s)[0] == e[0]);
        if !has_width_1_encoding(v) {
            let x = (v >> 6) & 0x1F;
            let y = (v >> 12) & 0x0F;
            let z = (v >> 18) & 0x7;
            assert(0xC0u8 | (x as u8) >= 128) by (bit_vector);
            assert(0xE0u8 | (y as u8) >= 128) by (bit_vector);
            assert(0xF0u8 | (z as u8) >= 128) by (bit_vector);
            assert(e[0] >= 128);
            assert(false);
        }
        assert forall|i: int| 0 <= i < rest.len() implies #[trigger] rest[i] < 128 by {
            assert(rest[i] == encode_utf8(s)[i + e.len()]);
        }
        lemma_ascii_bytes_ascii_chars(s.drop_first());
        assert forall|i: int| 0 <= i < s.len() implies '\0' <= #[trigger] s[i] <= '\u{7f}' by {
            if i > 0 {
                assert(s[i] == s.drop_first()[i - 1]);
                assert('\0' <= s.drop_first()[i - 1] <= '\u{7f}');
            } else {
                assert(has_width_1_encoding(v));
                lemma_char_below_128(s[0]);
            }
        }
    }
}

/// The lowercase digit of the value of a hex digit is that digit in lower
/// case.
pub proof fn lemma_lower_digit_of_hex(c: char)
    requires
        '\0' <= c <= '\u{7f}',
        is_hex_digit(c as u8),
    ensures
        lower_digit(hex_value(c as u8)) == ascii_lower(c),
{
    let b = c as u8;
    assert(b as u32 == c as u32);
    if b == 48 { assert(c == '0'); } else if b == 49 { assert(c == '1'); }
    else if b == 50 { assert(c == '2'); } else if b == 51 { assert(c == '3'); }
    else if b == 52 { assert(c == '4'); } else if b == 53 { assert(c == '5'); }
    else if b == 54 { assert(c == '6'); } else if b == 55 { assert(c == '7'); }
    else if b == 56 { assert(c == '8'); } else if b == 57 { assert(c == '9'); }
    else if b == 97 { assert(c == 'a'); } else if b == 98 { assert(c == 'b'); }
    else if b == 99 { assert(c == 'c'); } else if b == 100 { assert(c == 'd'); }
    else if b == 101 { assert(c == 'e'); } else if b == 102 { assert(c == 'f'); }
    else if b == 65 { assert(c == 'A'); } else if b == 66 { assert(c == 'B'); }
    else if b == 67 { assert(c == 'C'); } else if b == 68 { assert(c == 'D'); }
    else if b == 69 { assert(c == 'E'); } else { assert(c == 'F'); }
}

} // verus!
