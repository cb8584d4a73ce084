//! Hexadecimal text for attribute values, through the `base16` crate.

use vstd::prelude::*;

verus! {

/// The upper-case hexadecimal digit for `n`, which lies in `0..16`.
pub open spec fn hex_digit(n: int) -> char {
    if n < 10 {
        crate::attr::digit_char(n)
    } else if n == 10 { 'A' }
    else if n == 11 { 'B' }
    else if n == 12 { 'C' }
    else if n == 13 { 'D' }
    else if n == 14 { 'E' }
    else { 'F' }
}

/// Two upper-case digits for each byte, high nibble first.
pub open spec fn hex_upper(b: Seq<u8>) -> Seq<char>
    decreases b.len(),
{
    if b.len() == 0 {
        Seq::empty()
    } else {
        hex_upper(b.drop_last()) + seq![hex_digit(b.last() as int / 16), hex_digit(b.last() as int % 16)]
    }
}

/// The value of one hexadecimal digit of either case.
pub open spec fn hex_value(c: char) -> Option<int> {
    if '0' <= c && c <= '9' {
        Some((c as int) - ('0' as int))
    } else if 'a' <= c && c <= 'f' {
        Some((c as int) - ('a' as int) + 10)
    } else if 'A' <= c && c <= 'F' {
        Some((c as int) - ('A' as int) + 10)
    } else {
        None
    }
}

/// The bytes that a hexadecimal text stands for: it must have an even
/// number of characters, all of them hexadecimal digits.
pub open spec fn hex_decoded(s: Seq<char>) -> Option<Seq<u8>>
    decreases s.len(),
{
    if s.len() == 0 {
        Some(Seq::empty())
    } else if s.len() == 1 {
        None
    } else {
        match (
            hex_decoded(s.subrange(0, s.len() - 2)),
            hex_value(s[s.len() - 2]),
            hex_value(s[s.len() - 1]),
        ) {
            (Some(p), Some(h), Some(l)) => Some(p.push((h * 16 + l) as u8)),
            _ => None,
        }
    }
}

proof fn lemma_hex_digit_value(n: int)
    requires
        0 <= n < 16,
    ensures
        hex_value(hex_digit(n)) == Some(n),
{
}

/// Upper-case hexadecimal text reads back as the bytes it was written from.
pub proof fn lemma_hex_round_trip(b: Seq<u8>)
    ensures
        hex_decoded(hex_upper(b)) == Some(b),
    decreases b.len(),
{
    if b.len() > 0 {
        let p = b.drop_last();
        let x = b.last() as int;
        lemma_hex_round_trip(p);
        lemma_hex_upper_len(p);
        let s = hex_upper(b);
        assert(s.subrange(0, s.len() - 2) =~= hex_upper(p));
        lemma_hex_digit_value(x / 16);
        lemma_hex_digit_value(x % 16);
        assert((x / 16) * 16 + x % 16 == x);
        assert(p.push(b.last()) =~= b);
    }
}

proof fn lemma_hex_upper_len(b: Seq<u8>)
    ensures
        hex_upper(b).len() == 2 * b.len(),
    decreases b.len(),
{
    if b.len() > 0 {
        lemma_hex_upper_len(b.drop_last());
    }
}

/// Relies on `base16::encode_upper`: two upper-case digits per byte, in order.
#[verifier::external_body]
fn base16_encode_upper(bytes: &Vec<u8>) -> (r: String)
    ensures
        r@ == hex_upper(bytes@),
{
    base16::encode_upper(bytes)
}

/// Relies on `base16::decode`: it accepts digits of either case, refuses an
/// odd length or any other byte, and returns one byte per pair of digits.
#[verifier::external_body]
fn base16_decode(text: &str) -> (r: Option<Vec<u8>>)
    ensures
        r matches Some(v) ==> hex_decoded(text@) == Some(v@),
        r is None <==> hex_decoded(text@) is None,
{
    base16::decode(text).ok()
}

/// The text is not an even number of hexadecimal digits.
#[derive(Debug, PartialEq, Eq)]
pub struct HexFormatError;

/// Writes bytes as upper-case hexadecimal text.
pub fn encode_base16(key: &Vec<u8>) -> (r: String)
    ensures
        r@ == hex_upper(key@),
        hex_decoded(r@) == Some(key@),
{
    proof {
        lemma_hex_round_trip(key@);
    }
    base16_encode_upper(key)
}

/// Reads hexadecimal text of either case back into bytes.
pub fn decode_base16(text: &str) -> (r: Result<Vec<u8>, HexFormatError>)
    ensures
        r matches Ok(v) ==> hex_decoded(text@) == Some(v@),
        r is Err <==> hex_decoded(text@) is None,
{
    match base16_decode(text) {
        Some(v) => Ok(v),
        None => Err(HexFormatError),
    }
}

} // verus!
