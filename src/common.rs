//! Frames as hexadecimal text.
use vstd::prelude::*;

use crate::proto::{decode_error, decode_frame, decodes_to, Frame, FrameError, FrisquetData, FrisquetMetadata};

verus! {

#[verifier::external_type_specification]
#[verifier::external_body]
pub struct ExParseIntError(core::num::ParseIntError);

/// `0`-`9`, `a`-`f` or `A`-`F`.
pub open spec fn hex_digit(c: char) -> bool {
    ('0' <= c <= '9') || ('a' <= c <= 'f') || ('A' <= c <= 'F')
}

/// The value of a hexadecimal digit.
pub open spec fn hex_digit_value(c: char) -> nat {
    if '0' <= c <= '9' {
        (c as nat - '0' as nat) as nat
    } else if 'a' <= c <= 'f' {
        (c as nat - 'a' as nat + 10) as nat
    } else {
        (c as nat - 'A' as nat + 10) as nat
    }
}

/// Every character is a hexadecimal digit.
pub open spec fn all_hex_digits(s: Seq<char>) -> bool {
    forall|i: int| 0 <= i < s.len() ==> hex_digit(#[trigger] s[i])
}

/// The number that hexadecimal digits write, most significant first.
pub open spec fn hex_number(s: Seq<char>) -> nat
    decreases s.len(),
{
    if s.len() == 0 {
        0
    } else {
        hex_number(s.drop_last()) * 16 + hex_digit_value(s.last())
    }
}

/// What parsing `s` as a base-16 byte gives: an optional `+` followed by at
/// least one hexadecimal digit, with a value below 256.
pub open spec fn hex_byte_of(s: Seq<char>) -> Option<u8> {
    let digits = if s.len() > 0 && s[0] == '+' {
        s.skip(1)
    } else {
        s
    };
    if digits.len() > 0 && all_hex_digits(digits) && hex_number(digits) < 256 {
        Some(hex_number(digits) as u8)
    } else {
        None
    }
}

/// Relies on `u8::from_str_radix` in base 16, which accepts an optional `+`
/// followed by digits of the base and fails on anything else or on a value
/// that does not fit a byte.
#[verifier::external_body]
fn parse_hex_byte(s: &str) -> (r: Result<u8, core::num::ParseIntError>)
    ensures
        r is Ok <==> hex_byte_of(s@) is Some,
        r is Ok ==> r->Ok_0 == hex_byte_of(s@)->Some_0,
{
    u8::from_str_radix(s, 16)
}

/// Parses `input` as a base-16 byte.
pub fn from_hex(input: &str) -> (r: Result<u8, core::num::ParseIntError>)
    ensures
        r is Ok <==> hex_byte_of(input@) is Some,
        r is Ok ==> r->Ok_0 == hex_byte_of(input@)->Some_0,
{
    parse_hex_byte(input)
}

/// Tells whether `c` is a hexadecimal digit.
pub fn is_hex_digit(c: char) -> (r: bool)
    ensures
        r == hex_digit(c),
{
    ('0' <= c && c <= '9') || ('a' <= c && c <= 'f') || ('A' <= c && c <= 'F')
}

/// The bytes written by the longest prefix of `s` made of pairs of
/// hexadecimal digits; the rest of `s` is ignored.
pub open spec fn unhex(s: Seq<char>) -> Seq<u8>
    decreases s.len(),
{
    if s.len() >= 2 && hex_digit(s[0]) && hex_digit(s[1]) {
        seq![(hex_digit_value(s[0]) * 16 + hex_digit_value(s[1])) as u8] + unhex(s.skip(2))
    } else {
        seq![]
    }
}

proof fn lemma_pair_value(a: char, b: char)
    requires
        hex_digit(a),
        hex_digit(b),
    ensures
        hex_byte_of(seq![a, b]) == Some(
            (hex_digit_value(a) * 16 + hex_digit_value(b)) as u8,
        ),
{
    let s = seq![a, b];
    assert(s.drop_last() =~= seq![a]);
    assert(seq![a].drop_last() =~= Seq::<char>::empty());
    assert(seq![a].last() == a && s.last() == b);
    assert(hex_number(Seq::<char>::empty()) == 0);
    assert(hex_number(seq![a]) == hex_digit_value(a));
    assert(all_hex_digits(s));
}

/// Reads pairs of hexadecimal digits from the start of `input` into bytes,
/// stopping at the first position that does not hold two of them.
pub fn unhexify(input: &str) -> (r: Vec<u8>)
    ensures
        r@ == unhex(input@),
{
    let n = input.unicode_len();
    let mut out: Vec<u8> = Vec::new();
    let mut i: usize = 0;
    assert(input@.skip(0) =~= input@);
    while n - i > 1 && is_hex_digit(input.get_char(i)) && is_hex_digit(input.get_char(i + 1))
        invariant
            n == input@.len(),
            i <= n,
            out@ + unhex(input@.skip(i as int)) == unhex(input@),
        decreases n - i,
    {
        let a = input.get_char(i);
        let b = input.get_char(i + 1);
        let pair = input.substring_char(i, i + 2);
        proof {
            assert(pair@ =~= seq![a, b]);
            lemma_pair_value(a, b);
            let rest = input@.skip(i as int);
            assert(rest[0] == a && rest[1] == b);
            assert(rest.skip(2) =~= input@.skip(i + 2));
        }
        let v = match from_hex(pair) {
            Ok(v) => v,
            Err(_) => {
                assert(false);
                0
            },
        };
        out.push(v);
        i += 2;
        assert(out@ + unhex(input@.skip(i as int)) =~= unhex(input@));
    }
    proof {
        let rest = input@.skip(i as int);
        if n - i > 1 {
            assert(rest[0] == input@[i as int] && rest[1] == input@[i + 1]);
        }
        assert(unhex(rest) =~= seq![]);
        assert(out@ =~= out@ + unhex(rest));
    }
    out
}

/// Text that writes whole bytes: an even number of hexadecimal digits.
pub open spec fn hex_frame_text(s: Seq<char>) -> bool {
    s.len() % 2 == 0 && all_hex_digits(s)
}

/// Tells whether `input` is an even number of hexadecimal digits.
pub fn is_hex_text(input: &str) -> (r: bool)
    ensures
        r == hex_frame_text(input@),
{
    let n = input.unicode_len();
    if n % 2 != 0 {
        return false;
    }
    let mut i: usize = 0;
    while i < n
        invariant
            n == input@.len(),
            i <= n,
            forall|j: int| 0 <= j < i ==> hex_digit(#[trigger] input@[j]),
        decreases n - i,
    {
        if !is_hex_digit(input.get_char(i)) {
            return false;
        }
        i += 1;
    }
    true
}

/// Decodes a frame written in hexadecimal; text that is not an even number
/// of hexadecimal digits is rejected.
pub fn parse_data_from_str(input: &str) -> (r: Result<(FrisquetMetadata, FrisquetData), FrameError>)
    ensures
        !hex_frame_text(input@) ==> r == Err::<(FrisquetMetadata, FrisquetData), FrameError>(
            FrameError::MalformedHex,
        ),
        hex_frame_text(input@) ==> match decode_error(unhex(input@)) {
            Some(e) => r == Err::<(FrisquetMetadata, FrisquetData), FrameError>(e),
            None => r is Ok && decodes_to(
                unhex(input@),
                Frame { metadata: r->Ok_0.0, data: r->Ok_0.1 },
            ),
        },
{
    if !is_hex_text(input) {
        return Err(FrameError::MalformedHex);
    }
    let bytes = unhexify(input);
    match decode_frame(bytes.as_slice()) {
        Ok(f) => Ok((f.metadata, f.data)),
        Err(e) => Err(e),
    }
}

/// The lowercase hexadecimal digit of a value below 16.
pub open spec fn lower_hex_char(n: int) -> char {
    seq!['0', '1', '2', '3', '4', '5', '6', '7', '8', '9', 'a', 'b', 'c', 'd', 'e', 'f'][n]
}

/// Bytes written as text: two lowercase digits each, the high half first.
pub open spec fn hex_text(b: Seq<u8>) -> Seq<char> {
    Seq::new(
        (2 * b.len()) as nat,
        |i: int|
            if i % 2 == 0 {
                lower_hex_char(b[i / 2] as int / 16)
            } else {
                lower_hex_char(b[i / 2] as int % 16)
            },
    )
}

/// An ASCII hexadecimal digit of either case.
pub open spec fn ascii_hex_digit(c: u8) -> bool {
    (0x30 <= c <= 0x39) || (0x61 <= c <= 0x66) || (0x41 <= c <= 0x46)
}

pub open spec fn ascii_hex_value(c: u8) -> int {
    if c <= 0x39 {
        c - 0x30
    } else if c >= 0x61 {
        c - 0x61 + 10
    } else {
        c - 0x41 + 10
    }
}

/// Text bytes that read as whole bytes: an even count of hexadecimal digits.
pub open spec fn hex_pairs_valid(t: Seq<u8>) -> bool {
    t.len() % 2 == 0 && forall|i: int| 0 <= i < t.len() ==> ascii_hex_digit(#[trigger] t[i])
}

/// The bytes that pairs of hexadecimal digits write, the high half first.
pub open spec fn hex_pairs(t: Seq<u8>) -> Seq<u8> {
    Seq::new(
        t.len() / 2,
        |i: int| (ascii_hex_value(t[2 * i]) * 16 + ascii_hex_value(t[2 * i + 1])) as u8,
    )
}

/// Relies on `hex::encode`: two lowercase digits per byte, the high half first.
#[verifier::external_body]
pub(crate) fn encode_hex(b: &[u8]) -> (r: String)
    ensures
        r@ == hex_text(b@),
{
    hex::encode(b)
}

#[verifier::external_type_specification]
#[verifier::external_body]
pub struct ExFromHexError(hex::FromHexError);

/// Relies on `hex::decode`: an even number of hexadecimal digits of either
/// case gives one byte per pair, the high half first; anything else fails.
#[verifier::external_body]
pub(crate) fn decode_hex(t: &[u8]) -> (r: Result<Vec<u8>, hex::FromHexError>)
    ensures
        r is Ok <==> hex_pairs_valid(t@),
        r is Ok ==> r->Ok_0@ == hex_pairs(t@),
{
    hex::decode(t)
}

} // verus!
