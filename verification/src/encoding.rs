//! Decimal rendering, percent-encoding and base64: the textual encodings that
//! the signed URL is assembled from.

use vstd::prelude::*;
use vstd::utf8::encode_utf8;

verus! {

/// The character for a single decimal digit.
pub open spec fn dec_digit_char(d: nat) -> char
    recommends
        d < 10,
{
    ((0x30 + d) as u8) as char
}

/// The decimal representation of `n`, most significant digit first, with no
/// leading zeros (`0` itself is rendered as "0").
pub open spec fn dec_chars(n: nat) -> Seq<char>
    decreases n,
{
    if n < 10 {
        seq![dec_digit_char(n)]
    } else {
        dec_chars(n / 10).push(dec_digit_char(n % 10))
    }
}

/// One decimal digit as a string slice.
fn dec_digit_str(d: u64) -> (r: &'static str)
    requires
        d < 10,
    ensures
        r@ == seq![dec_digit_char(d as nat)],
{
    proof {
        reveal_strlit("0");
        reveal_strlit("1");
        reveal_strlit("2");
        reveal_strlit("3");
        reveal_strlit("4");
        reveal_strlit("5");
        reveal_strlit("6");
        reveal_strlit("7");
        reveal_strlit("8");
        reveal_strlit("9");
    }
    let r: &'static str = match d {
        0 => "0",
        1 => "1",
        2 => "2",
        3 => "3",
        4 => "4",
        5 => "5",
        6 => "6",
        7 => "7",
        8 => "8",
        _ => "9",
    };
    proof {
        assert(r@ =~= seq![dec_digit_char(d as nat)]);
    }
    r
}

/// Renders `n` in decimal, exactly as its mathematical decimal representation.
pub fn u64_to_dec_string(n: u64) -> (r: String)
    ensures
        r@ == dec_chars(n as nat),
    decreases n,
{
    if n < 10 {
        let mut r = String::new();
        r.append(dec_digit_str(n));
        proof {
            assert(r@ =~= dec_chars(n as nat));
        }
        r
    } else {
        let mut r = u64_to_dec_string(n / 10);
        r.append(dec_digit_str(n % 10));
        proof {
            assert(r@ =~= dec_chars(n as nat));
        }
        r
    }
}

/// True for the bytes that URL query-component encoding keeps as they are:
/// ASCII alphanumerics and `-`, `.`, `_`, `~`. Every other byte is escaped.
pub open spec fn is_unreserved_byte(b: u8) -> bool {
    ||| 0x30 <= b <= 0x39
    ||| 0x41 <= b <= 0x5a
    ||| 0x61 <= b <= 0x7a
    ||| b == 0x2d
    ||| b == 0x2e
    ||| b == 0x5f
    ||| b == 0x7e
}

/// The upper-case hexadecimal digit for a value below 16.
pub open spec fn upper_hex_char(d: u8) -> char
    recommends
        d < 16,
{
    if d < 10 {
        ((0x30 + d) as u8) as char
    } else {
        ((0x37 + d) as u8) as char
    }
}

/// How a single byte is rendered by percent-encoding: unreserved bytes stand
/// for themselves, every other byte becomes `%` and two upper-case hex digits.
pub open spec fn percent_encoded_byte(b: u8) -> Seq<char> {
    if is_unreserved_byte(b) {
        seq![b as char]
    } else {
        seq!['%', upper_hex_char(b / 16), upper_hex_char(b % 16)]
    }
}

/// The percent-encoding of a byte sequence.
pub open spec fn percent_encoded(bytes: Seq<u8>) -> Seq<char>
    decreases bytes.len(),
{
    if bytes.len() == 0 {
        Seq::empty()
    } else {
        percent_encoded_byte(bytes[0]) + percent_encoded(bytes.drop_first())
    }
}

/// True for the characters that serve as upper-case hexadecimal digits.
pub open spec fn is_upper_hex_char(c: char) -> bool {
    ||| 0x30 <= (c as int) <= 0x39
    ||| 0x41 <= (c as int) <= 0x46
}

/// The value of an upper-case hexadecimal digit character.
pub open spec fn upper_hex_value(c: char) -> u8
    recommends
        is_upper_hex_char(c),
{
    if (c as int) <= 0x39 {
        (c as int - 0x30) as u8
    } else {
        (c as int - 0x37) as u8
    }
}

/// Decodes a percent-encoded character sequence back to bytes: `%XX` escapes
/// become the escaped byte, any other ASCII character stands for itself.
/// `None` when the sequence is not well-formed.
pub open spec fn percent_decoded(s: Seq<char>) -> Option<Seq<u8>>
    decreases s.len(),
{
    if s.len() == 0 {
        Some(Seq::empty())
    } else if s[0] == '%' {
        if s.len() >= 3 && is_upper_hex_char(s[1]) && is_upper_hex_char(s[2]) {
            match percent_decoded(s.skip(3)) {
                Some(rest) => Some(
                    seq![(upper_hex_value(s[1]) * 16 + upper_hex_value(s[2])) as u8] + rest,
                ),
                None => None,
            }
        } else {
            None
        }
    } else if c_is_ascii(s[0]) {
        match percent_decoded(s.drop_first()) {
            Some(rest) => Some(seq![s[0] as u8] + rest),
            None => None,
        }
    } else {
        None
    }
}

/// True for a character in the ASCII range.
pub open spec fn c_is_ascii(c: char) -> bool {
    (c as int) < 0x80
}

/// The upper-case hexadecimal digits decode back to their value.
proof fn lemma_upper_hex_round_trip(d: u8)
    requires
        d < 16,
    ensures
        is_upper_hex_char(upper_hex_char(d)),
        upper_hex_value(upper_hex_char(d)) == d,
{
}

/// Law: a byte outside the unreserved set (such as `+`, `/` or `=`) never
/// appears raw in a percent-encoded sequence: it is rendered as `%` and two
/// upper-case hexadecimal digits.
pub proof fn lemma_reserved_byte_is_escaped(b: u8)
    requires
        !is_unreserved_byte(b),
    ensures
        percent_encoded_byte(b) == seq!['%', upper_hex_char(b / 16), upper_hex_char(b % 16)],
{
}

/// Law: percent-encoding loses nothing — decoding an encoded byte sequence
/// recovers that sequence exactly.
pub proof fn lemma_percent_round_trip(bytes: Seq<u8>)
    ensures
        percent_decoded(percent_encoded(bytes)) == Some(bytes),
    decreases bytes.len(),
{
    if bytes.len() == 0 {
        assert(percent_encoded(bytes) =~= Seq::<char>::empty());
        assert(percent_decoded(percent_encoded(bytes)) == Some(Seq::<u8>::empty()));
        assert(bytes =~= Seq::<u8>::empty());
    } else {
        let b = bytes[0];
        let rest = bytes.drop_first();
        let e = percent_encoded(bytes);
        lemma_percent_round_trip(rest);
        if is_unreserved_byte(b) {
            assert(e == seq![b as char] + percent_encoded(rest));
            assert(e[0] == b as char);
            assert(e[0] as int == b as int);
            assert(e[0] != '%' && c_is_ascii(e[0]));
            assert(e.drop_first() =~= percent_encoded(rest));
            assert(percent_decoded(e) == Some(seq![b] + rest));
            assert(seq![b] + rest =~= bytes);
        } else {
            assert(e == seq!['%', upper_hex_char(b / 16), upper_hex_char(b % 16)]
                + percent_encoded(rest));
            assert(e.len() >= 3);
            assert(e[0] == '%' && e[1] == upper_hex_char(b / 16) && e[2] == upper_hex_char(
                b % 16,
            ));
            lemma_upper_hex_round_trip(b / 16);
            lemma_upper_hex_round_trip(b % 16);
            assert(e.skip(3) =~= percent_encoded(rest));
            assert(upper_hex_value(e[1]) * 16 + upper_hex_value(e[2]) == b);
            assert(percent_decoded(e) == Some(seq![b] + rest));
            assert(seq![b] + rest =~= bytes);
        }
    }
}

/// Relies on urlencoding::encode: every byte of the UTF-8 form of the input
/// is kept when it is an ASCII alphanumeric or one of `-`, `.`, `_`, `~`, and
/// is written as `%` followed by two upper-case hex digits otherwise.
#[verifier::external_body]
pub(crate) fn url_encode(s: &str) -> (r: String)
    ensures
        r@ == percent_encoded(encode_utf8(s@)),
{
    urlencoding::encode(s).into_owned()
}

/// What base64::encode returns: the base64 rendering of the bytes in the
/// standard alphabet with `=` padding, a function of the bytes alone.
pub uninterp spec fn base64_std_of(bytes: Seq<u8>) -> Seq<char>;

/// True for the characters that standard base64 output is made of: ASCII
/// alphanumerics, `+`, `/`, and the padding `=`.
pub open spec fn is_base64_char(c: char) -> bool {
    ||| 0x30 <= (c as int) <= 0x39
    ||| 0x41 <= (c as int) <= 0x5a
    ||| 0x61 <= (c as int) <= 0x7a
    ||| c == '+'
    ||| c == '/'
    ||| c == '='
}

/// Relies on base64::encode: standard-alphabet base64 with `=` padding, a
/// function of the input bytes alone; every three input bytes become four
/// output characters, with the last group padded to four.
#[verifier::external_body]
pub(crate) fn base64_encode(bytes: &[u8]) -> (r: String)
    ensures
        r@ == base64_std_of(bytes@),
        r@.len() == 4 * ((bytes@.len() + 2) / 3),
        forall|i: int| 0 <= i < r@.len() ==> is_base64_char(#[trigger] r@[i]),
{
    base64::encode(bytes)
}

} // verus!
