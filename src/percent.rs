//! Percent-encoding of query values, and the decoding that undoes it.
use vstd::prelude::*;
use vstd::utf8::*;

verus! {

/// Bytes that stay as they are in an encoded value: ASCII letters, digits,
/// and `-`, `.`, `_`, `~`.
pub open spec fn is_unreserved(b: u8) -> bool {
    (0x30 <= b <= 0x39) || (0x41 <= b <= 0x5a) || (0x61 <= b <= 0x7a) || b == 0x2d || b == 0x2e
        || b == 0x5f || b == 0x7e
}

/// The upper-case hexadecimal digit for a value below 16.
pub open spec fn hex_upper(d: u8) -> char {
    if d < 10 {
        (0x30 + d) as u8 as char
    } else {
        (0x41 + d - 10) as u8 as char
    }
}

/// The text that stands for one byte.
pub open spec fn encode_byte(b: u8) -> Seq<char> {
    if is_unreserved(b) {
        seq![b as char]
    } else {
        seq!['%', hex_upper(b / 16), hex_upper(b % 16)]
    }
}

/// Percent-encoding of a byte sequence.
pub open spec fn percent_encode(bytes: Seq<u8>) -> Seq<char>
    decreases bytes.len(),
{
    if bytes.len() == 0 {
        Seq::empty()
    } else {
        encode_byte(bytes[0]) + percent_encode(bytes.drop_first())
    }
}

/// Relies on urlencoding::encode: every byte of the UTF-8 form of `s` but
/// the unreserved ones becomes `%` and two upper-case hex digits.
#[verifier::external_body]
pub(crate) fn url_encode(s: &str) -> (r: String)
    ensures
        r@ == percent_encode(encode_utf8(s@)),
{
    urlencoding::encode(s).into_owned()
}

/// A hexadecimal digit of either case.
pub open spec fn is_hex_digit(c: char) -> bool {
    (0x30 <= c as u32 <= 0x39) || (0x41 <= c as u32 <= 0x46) || (0x61 <= c as u32 <= 0x66)
}

/// The value of a hexadecimal digit.
pub open spec fn hex_value(c: char) -> int {
    if c as u32 <= 0x39 {
        c as u32 - 0x30
    } else if c as u32 <= 0x46 {
        c as u32 - 0x41 + 10
    } else {
        c as u32 - 0x61 + 10
    }
}

/// Percent-decoding: `%` followed by two hex digits gives one byte; any other
/// character gives its own UTF-8 bytes.
pub open spec fn percent_decode(s: Seq<char>) -> Seq<u8>
    decreases s.len(),
{
    if s.len() == 0 {
        Seq::empty()
    } else if s.len() >= 3 && s[0] == '%' && is_hex_digit(s[1]) && is_hex_digit(s[2]) {
        seq![(hex_value(s[1]) * 16 + hex_value(s[2])) as u8] + percent_decode(s.subrange(3, s.len() as int))
    } else {
        encode_utf8(s.take(1)) + percent_decode(s.drop_first())
    }
}

proof fn lemma_ascii_char_bytes(b: u8)
    requires
        b < 0x80,
    ensures
        encode_utf8(seq![b as char]) == seq![b],
{
    let cs = seq![b as char];
    assert(is_ascii_chars(cs));
    is_ascii_chars_encode_utf8(cs);
    assert(encode_utf8(cs) =~= seq![b]);
}

proof fn lemma_decode_escape(b: u8)
    ensures
        is_hex_digit(hex_upper(b / 16)),
        is_hex_digit(hex_upper(b % 16)),
        hex_value(hex_upper(b / 16)) * 16 + hex_value(hex_upper(b % 16)) == b,
{
}

/// Decoding undoes encoding: percent-decoding the encoded form of any byte
/// sequence gives back exactly those bytes.
pub proof fn lemma_decode_encode(bytes: Seq<u8>)
    ensures
        percent_decode(percent_encode(bytes)) == bytes,
    decreases bytes.len(),
{
    if bytes.len() > 0 {
        let b = bytes[0];
        let rest = percent_encode(bytes.drop_first());
        let s = percent_encode(bytes);
        assert(s == encode_byte(b) + rest);
        lemma_decode_encode(bytes.drop_first());
        if is_unreserved(b) {
            assert(s[0] == b as char);
            assert(s.take(1) =~= seq![b as char]);
            lemma_ascii_char_bytes(b);
            assert(s.drop_first() =~= rest);
        } else {
            lemma_decode_escape(b);
            assert(s.subrange(3, s.len() as int) =~= rest);
        }
        assert(bytes =~= seq![b] + bytes.drop_first());
    }
}

} // verus!
