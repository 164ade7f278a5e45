//! Percent-decoding of request paths, done by `percent_encoding`.

use vstd::prelude::*;
use vstd::utf8::{
    decode_utf8, encode_utf8, encode_utf8_decode_utf8, encode_utf8_valid_utf8, is_ascii_chars,
    is_ascii_chars_encode_utf8, valid_utf8,
};

verus! {

/// The value of a hexadecimal digit, written in either case.
pub open spec fn hex_value(byte: u8) -> Option<int> {
    if 0x30 <= byte <= 0x39 {
        Some(byte - 0x30)
    } else if 0x41 <= byte <= 0x46 {
        Some(byte - 0x41 + 10)
    } else if 0x61 <= byte <= 0x66 {
        Some(byte - 0x61 + 10)
    } else {
        None
    }
}

/// Whether an escape begins the bytes: a `%` and two hexadecimal digits.
pub open spec fn begins_with_escape(bytes: Seq<u8>) -> bool {
    &&& bytes.len() >= 3
    &&& bytes[0] == 0x25
    &&& hex_value(bytes[1]) is Some
    &&& hex_value(bytes[2]) is Some
}

/// The bytes with every escape replaced by the byte that its digits spell.
/// A `%` that begins no escape stands for itself.
pub open spec fn unescaped(bytes: Seq<u8>) -> Seq<u8>
    decreases bytes.len(),
{
    if bytes.len() == 0 {
        bytes
    } else if begins_with_escape(bytes) {
        seq![(hex_value(bytes[1])->0 * 16 + hex_value(bytes[2])->0) as u8] + unescaped(
            bytes.skip(3),
        )
    } else {
        seq![bytes[0]] + unescaped(bytes.skip(1))
    }
}

/// The text that a raw request path stands for: its UTF-8 bytes, unescaped,
/// read as UTF-8 again; or `None` where what results is no UTF-8.
pub open spec fn percent_decoded(raw: Seq<char>) -> Option<Seq<char>> {
    let bytes = unescaped(encode_utf8(raw));
    if valid_utf8(bytes) {
        Some(decode_utf8(bytes))
    } else {
        None
    }
}

/// Percent-decodes a text with `percent_encoding::percent_decode_str` and
/// reads the result as UTF-8 with `PercentDecode::decode_utf8`. That crate
/// replaces each `%` followed by two hexadecimal digits by the byte they
/// spell, leaves every other byte as it is, and fails only where the bytes
/// that result are not well-formed UTF-8.
#[verifier::external_body]
pub(crate) fn percent_decode(raw: &str) -> (out: Option<String>)
    ensures
        match out {
            Some(text) => percent_decoded(raw@) == Some(text@),
            None => percent_decoded(raw@) is None,
        },
{
    percent_encoding::percent_decode_str(raw).decode_utf8().ok().map(std::borrow::Cow::into_owned)
}

proof fn unescaped_without_percent(bytes: Seq<u8>)
    requires
        !bytes.contains(0x25),
    ensures
        unescaped(bytes) == bytes,
    decreases bytes.len(),
{
    if bytes.len() > 0 {
        let rest = bytes.skip(1);
        assert(bytes[0] != 0x25);
        assert forall|i: int| 0 <= i < rest.len() implies rest[i] != 0x25 by {
            assert(rest[i] == bytes[i + 1]);
        }
        unescaped_without_percent(rest);
        assert(seq![bytes[0]] + rest == bytes);
    }
}

/// A path of ASCII characters that holds no `%` stands for itself.
pub proof fn plain_path_decodes_to_itself(raw: Seq<char>)
    requires
        is_ascii_chars(raw),
        !raw.contains('%'),
    ensures
        percent_decoded(raw) == Some(raw),
{
    let bytes = encode_utf8(raw);
    is_ascii_chars_encode_utf8(raw);
    assert forall|i: int| 0 <= i < bytes.len() implies bytes[i] != 0x25 by {
        assert(raw[i] as u8 == bytes[i]);
        assert(raw[i] != '%');
    }
    unescaped_without_percent(bytes);
    encode_utf8_valid_utf8(raw);
    encode_utf8_decode_utf8(raw);
}

} // verus!
