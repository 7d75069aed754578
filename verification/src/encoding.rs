//! RFC 3986 percent-encoding, the canonical encoder of every OAuth string.

use crate::text::{ascii_string, ascii_text, is_ascii_bytes, lemma_ascii_bytes_are_utf8};
use vstd::prelude::*;
use vstd::string::*;
use vstd::utf8::*;

verus! {

/// The bytes that pass through unchanged: ASCII letters, digits and `- . _ ~`.
pub open spec fn is_unreserved(b: u8) -> bool {
    (0x41 <= b <= 0x5A) || (0x61 <= b <= 0x7A) || (0x30 <= b <= 0x39) || b == 0x2D || b == 0x2E
        || b == 0x5F || b == 0x7E
}

/// The upper-case hexadecimal digit for a value below 16.
pub open spec fn upper_hex_digit(d: u8) -> u8 {
    if d < 10 {
        (48 + d) as u8
    } else {
        (55 + d) as u8
    }
}

/// What one byte becomes: itself when unreserved, else `%` and its two
/// upper-case hexadecimal digits.
pub open spec fn encoded_byte(b: u8) -> Seq<u8> {
    if is_unreserved(b) {
        seq![b]
    } else {
        seq![0x25u8, upper_hex_digit(b / 16), upper_hex_digit(b % 16)]
    }
}

/// The percent-encoding of a byte string.
pub open spec fn percent_encoded_bytes(input: Seq<u8>) -> Seq<u8>
    decreases input.len(),
{
    if input.len() == 0 {
        Seq::empty()
    } else {
        percent_encoded_bytes(input.drop_last()) + encoded_byte(input.last())
    }
}

/// The percent-encoding of a text: that of its UTF-8 bytes, read as ASCII.
pub open spec fn percent_encoded(input: Seq<char>) -> Seq<char> {
    ascii_text(percent_encoded_bytes(encode_utf8(input)))
}

/// A character that the encoder may emit: an unreserved one or `%`.
pub open spec fn is_encoded_char(c: char) -> bool {
    ('A' <= c <= 'Z') || ('a' <= c <= 'z') || ('0' <= c <= '9') || c == '-' || c == '.' || c == '_'
        || c == '~' || c == '%'
}

/// A character that the encoder leaves alone.
pub open spec fn is_unreserved_char(c: char) -> bool {
    is_encoded_char(c) && c != '%'
}

/// Every byte of an encoding is unreserved or `%`.
pub proof fn lemma_encoded_bytes_alphabet(input: Seq<u8>)
    ensures
        forall|i: int|
            0 <= i < percent_encoded_bytes(input).len() ==> {
                let b = #[trigger] percent_encoded_bytes(input)[i];
                is_unreserved(b) || b == 0x25
            },
        is_ascii_bytes(percent_encoded_bytes(input)),
    decreases input.len(),
{
    if input.len() > 0 {
        lemma_encoded_bytes_alphabet(input.drop_last());
        let head = percent_encoded_bytes(input.drop_last());
        let tail = encoded_byte(input.last());
        assert forall|i: int| 0 <= i < (head + tail).len() implies {
            let b = #[trigger] (head + tail)[i];
            (is_unreserved(b) || b == 0x25) && b < 128
        } by {
            if i < head.len() {
                assert((head + tail)[i] == head[i]);
                assert(head[i] < 128);
            } else {
                assert((head + tail)[i] == tail[i - head.len()]);
            }
        }
    }
}

/// The encoder never emits a character outside `A-Z a-z 0-9 - . _ ~ %`.
pub proof fn lemma_encoding_alphabet(input: Seq<char>)
    ensures
        forall|i: int|
            0 <= i < percent_encoded(input).len() ==> is_encoded_char(
                #[trigger] percent_encoded(input)[i],
            ),
        is_ascii_chars(percent_encoded(input)),
{
    let bytes = percent_encoded_bytes(encode_utf8(input));
    lemma_encoded_bytes_alphabet(encode_utf8(input));
    lemma_ascii_bytes_are_utf8(bytes);
    assert forall|i: int| 0 <= i < percent_encoded(input).len() implies is_encoded_char(
        #[trigger] percent_encoded(input)[i],
    ) by {
        let b = bytes[i];
        assert(is_unreserved(b) || b == 0x25);
        assert(percent_encoded(input)[i] == b as char);
    }
}

/// On a text made of unreserved characters alone the encoder is the identity.
pub proof fn lemma_unreserved_text_is_unchanged(input: Seq<char>)
    requires
        forall|i: int| 0 <= i < input.len() ==> is_unreserved_char(#[trigger] input[i]),
    ensures
        percent_encoded(input) == input,
{
    assert(is_ascii_chars(input)) by {
        assert forall|i: int| 0 <= i < input.len() implies '\0' <= #[trigger] input[i]
            <= '\u{7f}' by {
            assert(is_unreserved_char(input[i]));
        }
    }
    is_ascii_chars_encode_utf8(input);
    let bytes = encode_utf8(input);
    assert forall|i: int| 0 <= i < bytes.len() implies is_unreserved(#[trigger] bytes[i]) by {
        assert(is_unreserved_char(input[i]));
        assert(input[i] as u8 == bytes[i]);
    }
    lemma_unreserved_bytes_are_unchanged(bytes);
    assert(percent_encoded(input) =~= input) by {
        assert forall|i: int| 0 <= i < input.len() implies ascii_text(bytes)[i] == input[i] by {
            assert(is_unreserved_char(input[i]));
            assert(input[i] as u8 == bytes[i]);
        }
    }
}

/// On unreserved bytes the byte-level encoder is the identity.
pub proof fn lemma_unreserved_bytes_are_unchanged(input: Seq<u8>)
    requires
        forall|i: int| 0 <= i < input.len() ==> is_unreserved(#[trigger] input[i]),
    ensures
        percent_encoded_bytes(input) == input,
    decreases input.len(),
{
    if input.len() > 0 {
        lemma_unreserved_bytes_are_unchanged(input.drop_last());
        assert(is_unreserved(input[input.len() - 1]));
        assert(input.drop_last() + seq![input.last()] =~= input);
    }
}

fn upper_hex(d: u8) -> (digit: u8)
    requires
        d < 16,
    ensures
        digit == upper_hex_digit(d),
{
    if d < 10 {
        48 + d
    } else {
        55 + d
    }
}

fn unreserved(b: u8) -> (plain: bool)
    ensures
        plain == is_unreserved(b),
{
    (0x41 <= b && b <= 0x5A) || (0x61 <= b && b <= 0x7A) || (0x30 <= b && b <= 0x39) || b == 0x2D
        || b == 0x2E || b == 0x5F || b == 0x7E
}

/// Percent-encodes a text: unreserved bytes pass through, every other byte
/// of its UTF-8 form becomes `%XX` in upper-case hexadecimal.
pub fn percent_encode(s: &str) -> (encoded: String)
    ensures
        encoded@ == percent_encoded(s@),
        forall|i: int| 0 <= i < encoded@.len() ==> is_encoded_char(#[trigger] encoded@[i]),
{
    let bytes = s.as_bytes();
    let mut out: Vec<u8> = Vec::new();
    let n = bytes.len();
    for i in 0..n
        invariant
            n == bytes@.len(),
            out@ == percent_encoded_bytes(bytes@.take(i as int)),
    {
        let b = bytes[i];
        proof {
            assert(bytes@.take(i + 1).drop_last() =~= bytes@.take(i as int));
            assert(bytes@.take(i + 1).last() == b);
        }
        if unreserved(b) {
            out.push(b);
        } else {
            out.push(0x25);
            out.push(upper_hex(b / 16));
            out.push(upper_hex(b % 16));
        }
        assert(out@ =~= percent_encoded_bytes(bytes@.take(i as int)) + encoded_byte(b));
    }
    proof {
        assert(bytes@.take(n as int) =~= bytes@);
        lemma_encoded_bytes_alphabet(bytes@);
        lemma_encoding_alphabet(s@);
    }
    ascii_string(out)
}

} // verus!
