//! Text primitives: ASCII byte strings, decimal and hexadecimal numerals.

use vstd::prelude::*;
use vstd::utf8::*;

verus! {

/// Every byte is below 128.
pub open spec fn is_ascii_bytes(bytes: Seq<u8>) -> bool {
    forall|i: int| 0 <= i < bytes.len() ==> #[trigger] bytes[i] < 128
}

/// The text whose characters are the given ASCII bytes, one for one.
pub open spec fn ascii_text(bytes: Seq<u8>) -> Seq<char> {
    Seq::new(bytes.len(), |i: int| bytes[i] as char)
}

/// ASCII bytes are their own UTF-8 encoding.
pub proof fn lemma_ascii_bytes_are_utf8(bytes: Seq<u8>)
    requires
        is_ascii_bytes(bytes),
    ensures
        is_ascii_chars(ascii_text(bytes)),
        encode_utf8(ascii_text(bytes)) == bytes,
        valid_utf8(bytes),
        decode_utf8(bytes) == ascii_text(bytes),
{
    let chars = ascii_text(bytes);
    assert forall|i: int| 0 <= i < chars.len() implies '\0' <= #[trigger] chars[i] <= '\u{7f}' by {
        assert(bytes[i] < 128);
    }
    is_ascii_chars_encode_utf8(chars);
    assert forall|i: int| 0 <= i < bytes.len() implies encode_utf8(chars)[i] == bytes[i] by {
        assert(bytes[i] < 128);
        assert(chars[i] as u8 == encode_utf8(chars)[i]);
    }
    assert(encode_utf8(chars) =~= bytes);
    encode_utf8_valid_utf8(chars);
    encode_utf8_decode_utf8(chars);
}

/// Concatenating ASCII byte strings concatenates their texts.
pub proof fn lemma_ascii_text_concat(a: Seq<u8>, b: Seq<u8>)
    ensures
        ascii_text(a + b) == ascii_text(a) + ascii_text(b),
        is_ascii_bytes(a) && is_ascii_bytes(b) ==> is_ascii_bytes(a + b),
{
    assert(ascii_text(a + b) =~= ascii_text(a) + ascii_text(b));
    if is_ascii_bytes(a) && is_ascii_bytes(b) {
        assert forall|i: int| 0 <= i < (a + b).len() implies #[trigger] (a + b)[i] < 128 by {
            if i < a.len() {
                assert(a[i] < 128);
            } else {
                assert(b[i - a.len()] < 128);
            }
        }
    }
}

/// `String::from_utf8` of the standard library: on bytes that are valid
/// UTF-8 it yields the string that those bytes decode to.
#[verifier::external_body]
fn string_from_utf8(bytes: Vec<u8>) -> (text: String)
    requires
        valid_utf8(bytes@),
    ensures
        text@ == decode_utf8(bytes@),
{
    String::from_utf8(bytes).unwrap()
}

/// The string made of the given ASCII bytes.
pub fn ascii_string(bytes: Vec<u8>) -> (text: String)
    requires
        is_ascii_bytes(bytes@),
    ensures
        text@ == ascii_text(bytes@),
{
    proof {
        lemma_ascii_bytes_are_utf8(bytes@);
    }
    string_from_utf8(bytes)
}

/// The decimal digits of `n`, most significant first, as ASCII bytes.
pub open spec fn decimal_digits(n: nat) -> Seq<u8>
    decreases n,
{
    if n < 10 {
        seq![(48 + n) as u8]
    } else {
        decimal_digits(n / 10).push((48 + n % 10) as u8)
    }
}

/// The decimal numeral of `n`, with a leading minus sign when negative.
pub open spec fn decimal_text(n: int) -> Seq<char> {
    if n < 0 {
        seq!['-'] + ascii_text(decimal_digits((-n) as nat))
    } else {
        ascii_text(decimal_digits(n as nat))
    }
}

/// Decimal digits are ASCII digits.
pub proof fn lemma_decimal_digits_ascii(n: nat)
    ensures
        is_ascii_bytes(decimal_digits(n)),
        decimal_digits(n).len() >= 1,
        forall|i: int| 0 <= i < decimal_digits(n).len() ==> 48 <= #[trigger] decimal_digits(n)[i] <= 57,
    decreases n,
{
    if n >= 10 {
        lemma_decimal_digits_ascii(n / 10);
    }
}

/// A decimal numeral is never empty.
pub proof fn lemma_decimal_text_is_not_empty(n: int)
    ensures
        decimal_text(n).len() > 0,
{
    if n >= 0 {
        lemma_decimal_digits_ascii(n as nat);
    }
}

fn decimal_bytes(n: u128) -> (out: Vec<u8>)
    ensures
        out@ == decimal_digits(n as nat),
{
    let mut out: Vec<u8> = Vec::new();
    let mut rest: u128 = n;
    while rest >= 10
        invariant
            decimal_digits(n as nat) == decimal_digits(rest as nat) + out@,
        decreases rest,
    {
        let digit: u8 = 48 + (rest % 10) as u8;
        proof {
            assert(decimal_digits(rest as nat) == decimal_digits((rest / 10) as nat).push(digit));
            assert(decimal_digits((rest / 10) as nat).push(digit) + out@ =~= decimal_digits(
                (rest / 10) as nat,
            ) + (seq![digit] + out@));
        }
        let ghost before = out@;
        out.insert(0, digit);
        rest = rest / 10;
        assert(out@ =~= seq![digit] + before);
    }
    let digit: u8 = 48 + rest as u8;
    out.insert(0, digit);
    out
}

/// The decimal numeral of a signed integer.
pub fn decimal(n: i128) -> (text: String)
    ensures
        text@ == decimal_text(n as int),
{
    let magnitude: u128 = if n < 0 {
        ((-(n + 1)) as u128) + 1
    } else {
        n as u128
    };
    let mut bytes = decimal_bytes(magnitude);
    proof {
        lemma_decimal_digits_ascii(magnitude as nat);
    }
    if n < 0 {
        let ghost digits = bytes@;
        bytes.insert(0, 45);
        proof {
            assert(bytes@ =~= seq![45u8] + digits);
            lemma_ascii_text_concat(seq![45u8], digits);
            assert(ascii_text(seq![45u8]) =~= seq!['-']);
            assert(is_ascii_bytes(seq![45u8]));
        }
    }
    ascii_string(bytes)
}

/// The lower-case hexadecimal digit for a value below 16.
pub open spec fn lower_hex_digit(d: nat) -> u8 {
    if d < 10 {
        (48 + d) as u8
    } else {
        (87 + d) as u8
    }
}

/// The `width` least significant hexadecimal digits of `n`, most
/// significant first, padded with zeros.
pub open spec fn lower_hex_digits(n: nat, width: nat) -> Seq<u8>
    decreases width,
{
    if width == 0 {
        Seq::empty()
    } else {
        lower_hex_digits(n / 16, (width - 1) as nat).push(lower_hex_digit(n % 16))
    }
}

/// A 64-bit value as sixteen lower-case hexadecimal digits.
pub open spec fn hex16_text(n: u64) -> Seq<char> {
    ascii_text(lower_hex_digits(n as nat, 16))
}

/// Hexadecimal digits are ASCII, and there are `width` of them.
pub proof fn lemma_lower_hex_digits_ascii(n: nat, width: nat)
    ensures
        is_ascii_bytes(lower_hex_digits(n, width)),
        lower_hex_digits(n, width).len() == width,
    decreases width,
{
    if width > 0 {
        lemma_lower_hex_digits_ascii(n / 16, (width - 1) as nat);
    }
}

/// Sixteen lower-case hexadecimal digits of a 64-bit value, as bytes.
pub fn hex16_bytes(n: u64) -> (out: Vec<u8>)
    ensures
        out@ == lower_hex_digits(n as nat, 16),
        is_ascii_bytes(out@),
{
    let mut out: Vec<u8> = Vec::new();
    let mut rest: u64 = n;
    let mut done: usize = 0;
    while done < 16
        invariant
            done <= 16,
            out@.len() == done,
            lower_hex_digits(n as nat, 16) == lower_hex_digits(rest as nat, (16 - done) as nat)
                + out@,
        decreases 16 - done,
    {
        let nibble: u8 = (rest % 16) as u8;
        let digit: u8 = if nibble < 10 {
            48 + nibble
        } else {
            87 + nibble
        };
        proof {
            let w = (16 - done) as nat;
            assert(lower_hex_digits(rest as nat, w) == lower_hex_digits(
                (rest / 16) as nat,
                (w - 1) as nat,
            ).push(digit));
            assert(lower_hex_digits((rest / 16) as nat, (w - 1) as nat).push(digit) + out@
                =~= lower_hex_digits((rest / 16) as nat, (w - 1) as nat) + (seq![digit] + out@));
        }
        let ghost before = out@;
        out.insert(0, digit);
        rest = rest / 16;
        done = done + 1;
        assert(out@ =~= seq![digit] + before);
    }
    proof {
        assert(lower_hex_digits(rest as nat, 0) =~= Seq::<u8>::empty());
        assert(lower_hex_digits(n as nat, 16) =~= out@);
        lemma_lower_hex_digits_ascii(n as nat, 16);
    }
    out
}

} // verus!
