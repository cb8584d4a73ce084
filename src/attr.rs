//! Attribute addresses written as `"<vendor>.<subtype>"`.

use vstd::prelude::*;

verus! {

pub open spec fn is_digit(c: char) -> bool {
    '0' <= c && c <= '9'
}

pub open spec fn digit_value(c: char) -> int {
    (c as int) - ('0' as int)
}

/// The number written by a string of decimal digits, most significant first.
pub open spec fn decimal_value(d: Seq<char>) -> int
    decreases d.len(),
{
    if d.len() == 0 {
        0
    } else {
        decimal_value(d.drop_last()) * 10 + digit_value(d.last())
    }
}

pub open spec fn all_digits(d: Seq<char>) -> bool {
    forall|k: int| 0 <= k < d.len() ==> #[trigger] is_digit(d[k])
}

/// The digits of an unsigned literal: an optional leading `+` is dropped.
pub open spec fn literal_digits(s: Seq<char>) -> Seq<char> {
    if s.len() > 0 && s[0] == '+' {
        s.subrange(1, s.len() as int)
    } else {
        s
    }
}

/// The value that `str::parse` gives an unsigned literal no larger than `max`,
/// or `None` where it refuses the text.
pub open spec fn literal_value(s: Seq<char>, max: int) -> Option<int> {
    let d = literal_digits(s);
    if d.len() > 0 && all_digits(d) && decimal_value(d) <= max {
        Some(decimal_value(d))
    } else {
        None
    }
}

/// `s` is an attribute address whose separating dot stands at `i`.
pub open spec fn is_attr_at(s: Seq<char>, i: int) -> bool {
    &&& 0 <= i < s.len()
    &&& s[i] == '.'
    &&& literal_value(s.subrange(0, i), u32::MAX as int) is Some
    &&& literal_value(s.subrange(i + 1, s.len() as int), u8::MAX as int) is Some
}

/// The address that the text `s` denotes, if it is one.
pub open spec fn attr_of(s: Seq<char>) -> Option<(u32, u8)> {
    if exists|i: int| is_attr_at(s, i) {
        let i = choose|i: int| is_attr_at(s, i);
        Some(
            (
                literal_value(s.subrange(0, i), u32::MAX as int)->0 as u32,
                literal_value(s.subrange(i + 1, s.len() as int), u8::MAX as int)->0 as u8,
            ),
        )
    } else {
        None
    }
}

proof fn lemma_decimal_prefix_le(d: Seq<char>, k: int)
    requires
        0 <= k <= d.len(),
        all_digits(d),
    ensures
        0 <= decimal_value(d.subrange(0, k)) <= decimal_value(d),
    decreases d.len() - k,
{
    if k < d.len() {
        lemma_decimal_prefix_le(d, k + 1);
        let p = d.subrange(0, k + 1);
        assert(p.drop_last() =~= d.subrange(0, k));
        assert(is_digit(d[k]));
    } else {
        assert(d.subrange(0, k) =~= d);
        lemma_decimal_nonneg(d);
    }
}

proof fn lemma_decimal_nonneg(d: Seq<char>)
    requires
        all_digits(d),
    ensures
        decimal_value(d) >= 0,
    decreases d.len(),
{
    if d.len() > 0 {
        assert(is_digit(d[d.len() - 1]));
        lemma_decimal_nonneg(d.drop_last());
    }
}

/// A dot never occurs in an accepted literal, so the separator is unique.
proof fn lemma_attr_dot_unique(s: Seq<char>, i: int, j: int)
    requires
        is_attr_at(s, i),
        is_attr_at(s, j),
    ensures
        i == j,
{
    if i < j {
        lemma_literal_has_no_dot(s.subrange(0, j), i);
    } else if j < i {
        lemma_literal_has_no_dot(s.subrange(0, i), j);
    }
}

proof fn lemma_literal_has_no_dot(s: Seq<char>, k: int)
    requires
        0 <= k < s.len(),
        s[k] == '.',
    ensures
        literal_value(s, u32::MAX as int) is None,
{
    let d = literal_digits(s);
    if s.len() > 0 && s[0] == '+' {
        assert(k >= 1);
        assert(d[k - 1] == '.');
        assert(!is_digit(d[k - 1]));
    } else {
        assert(d[k] == '.');
        assert(!is_digit(d[k]));
    }
}

/// Parses the unsigned literal `s[from..to]`, accepting values up to `max`.
fn parse_unsigned(s: &str, from: usize, to: usize, max: u32) -> (r: Option<u32>)
    requires
        from <= to <= s@.len(),
        9 <= max,
    ensures
        r matches Some(v) ==> literal_value(s@.subrange(from as int, to as int), max as int)
            == Some(v as int),
        r is None ==> literal_value(s@.subrange(from as int, to as int), max as int) is None,
{
    let ghost t = s@.subrange(from as int, to as int);
    let mut start = from;
    if from < to && s.get_char(from) == '+' {
        start = from + 1;
    }
    let ghost d = s@.subrange(start as int, to as int);
    assert(d =~= literal_digits(t));
    if start == to {
        return None;
    }
    let mut acc: u32 = 0;
    let mut k = start;
    while k < to
        invariant
            from <= start <= k <= to <= s@.len(),
            d == s@.subrange(start as int, to as int),
            t == s@.subrange(from as int, to as int),
            d == literal_digits(t),
            d.len() > 0,
            all_digits(d.subrange(0, k - start)),
            acc as int == decimal_value(d.subrange(0, k - start)),
            acc <= max,
            9 <= max,
        decreases to - k,
    {
        let c = s.get_char(k);
        assert(c == d[k - start]);
        if !('0' <= c && c <= '9') {
            assert(!all_digits(d)) by {
                assert(!is_digit(d[k - start]));
            }
            return None;
        }
        let digit = (c as u32) - ('0' as u32);
        let ghost next = d.subrange(0, k - start + 1);
        assert(next.drop_last() =~= d.subrange(0, k - start));
        assert(next.last() == c);
        assert(all_digits(next)) by {
            assert forall|j: int| 0 <= j < next.len() implies #[trigger] is_digit(next[j]) by {
                if j < next.len() - 1 {
                    assert(next[j] == d.subrange(0, k - start)[j]);
                }
            }
        }
        if acc > (max - digit) / 10 {
            assert(decimal_value(next) > max) by (nonlinear_arith)
                requires
                    decimal_value(next) == acc * 10 + digit,
                    acc > (max - digit) / 10,
                    digit <= 9,
                    9 <= max,
            {
            }
            proof {
                if all_digits(d) {
                    lemma_decimal_prefix_le(d, (k - start + 1) as int);
                }
            }
            return None;
        }
        assert(acc * 10 + digit <= max) by (nonlinear_arith)
            requires
                acc <= (max - digit) / 10,
                digit <= max,
        {
        }
        acc = acc * 10 + digit;
        k = k + 1;
    }
    assert(d.subrange(0, k - start) =~= d);
    Some(acc)
}


/// The decimal digit for `d`, which lies in `0..10`.
pub open spec fn digit_char(d: int) -> char {
    if d == 0 { '0' }
    else if d == 1 { '1' }
    else if d == 2 { '2' }
    else if d == 3 { '3' }
    else if d == 4 { '4' }
    else if d == 5 { '5' }
    else if d == 6 { '6' }
    else if d == 7 { '7' }
    else if d == 8 { '8' }
    else { '9' }
}

/// How `Display` writes a non-negative integer: decimal, no leading zeros.
pub open spec fn decimal_text(n: nat) -> Seq<char>
    decreases n,
{
    if n < 10 {
        seq![digit_char(n as int)]
    } else {
        decimal_text(n / 10).push(digit_char((n % 10) as int))
    }
}

/// The text that names the address `(vendor, subtype)`.
pub open spec fn attr_text(key: (u32, u8)) -> Seq<char> {
    decimal_text(key.0 as nat) + seq!['.'] + decimal_text(key.1 as nat)
}

/// The addresses named by `texts`, in order, leaving out each text that names none.
pub open spec fn decoded_attrs(texts: Seq<String>) -> Seq<(u32, u8)>
    decreases texts.len(),
{
    if texts.len() == 0 {
        Seq::empty()
    } else {
        let rest = decoded_attrs(texts.drop_last());
        match attr_of(texts.last()@) {
            Some(key) => rest.push(key),
            None => rest,
        }
    }
}

/// The text is not of the form `"<u32>.<u8>"`.
#[derive(Debug, PartialEq, Eq)]
pub struct AttrFormatError;

/// Reads an attribute address of the form `"<vendor>.<subtype>"`.
pub fn parse_attr(attr: &str) -> (r: Option<(u32, u8)>)
    ensures
        r == attr_of(attr@),
{
    let n = attr.unicode_len();
    let mut i: usize = 0;
    while i < n
        invariant
            n == attr@.len(),
            i <= n,
            forall|j: int| 0 <= j < i ==> attr@[j] != '.',
        ensures
            i <= n,
            i < n ==> attr@[i as int] == '.',
            forall|j: int| 0 <= j < i ==> attr@[j] != '.',
        decreases n - i,
    {
        if attr.get_char(i) == '.' {
            break;
        }
        i = i + 1;
    }
    if i == n {
        assert(!exists|j: int| is_attr_at(attr@, j));
        return None;
    }
    let vendor = parse_unsigned(attr, 0, i, u32::MAX);
    let subtype = parse_unsigned(attr, i + 1, n, u8::MAX as u32);
    proof {
        assert forall|j: int| is_attr_at(attr@, j) implies j == i by {
            if j < i {
            } else if j > i {
                lemma_literal_has_no_dot(attr@.subrange(0, j), i as int);
            }
        }
    }
    match (vendor, subtype) {
        (Some(v), Some(t)) => {
            assert(is_attr_at(attr@, i as int));
            Some((v, t as u8))
        },
        _ => {
            assert(!is_attr_at(attr@, i as int));
            None
        },
    }
}

/// Reads one configured attribute address.
pub fn decode_attr(attr: &str) -> (r: Result<(u32, u8), AttrFormatError>)
    ensures
        r matches Ok(key) ==> attr_of(attr@) == Some(key),
        r is Err <==> attr_of(attr@) is None,
{
    match parse_attr(attr) {
        Some(key) => Ok(key),
        None => Err(AttrFormatError),
    }
}

/// Reads a list of configured attribute addresses; texts that are not
/// addresses are skipped.
pub fn decode_attrs(attrs: &Vec<String>) -> (r: Option<Vec<(u32, u8)>>)
    ensures
        r matches Some(keys) && keys@ == decoded_attrs(attrs@),
{
    let mut keys: Vec<(u32, u8)> = Vec::new();
    let mut i: usize = 0;
    while i < attrs.len()
        invariant
            i <= attrs@.len(),
            keys@ == decoded_attrs(attrs@.subrange(0, i as int)),
        decreases attrs@.len() - i,
    {
        let ghost prefix = attrs@.subrange(0, i as int + 1);
        assert(prefix.drop_last() =~= attrs@.subrange(0, i as int));
        assert(prefix.last() == attrs@[i as int]);
        if let Some(key) = parse_attr(attrs[i].as_str()) {
            keys.push(key);
        }
        i = i + 1;
    }
    assert(attrs@.subrange(0, attrs@.len() as int) =~= attrs@);
    Some(keys)
}

/// Appends the decimal digit `d`.
fn push_digit(out: &mut String, d: u32)
    requires
        d < 10,
    ensures
        final(out)@ == old(out)@.push(digit_char(d as int)),
{
    let digits = "0123456789";
    proof {
        reveal_strlit("0123456789");
    }
    let i = d as usize;
    let one = digits.substring_char(i, i + 1);
    assert(one@ =~= seq![digit_char(d as int)]) by {
        assert(one@[0] == digits@[i as int]);
    }
    out.append(one);
    assert(out@ =~= old(out)@.push(digit_char(d as int)));
}

/// Appends `n` in decimal, without leading zeros.
fn push_decimal(out: &mut String, n: u32)
    ensures
        final(out)@ == old(out)@ + decimal_text(n as nat),
    decreases n,
{
    if n >= 10 {
        push_decimal(out, n / 10);
    }
    push_digit(out, n % 10);
    if n >= 10 {
        assert(decimal_text(n as nat) == decimal_text((n / 10) as nat).push(digit_char((n % 10) as int)));
    } else {
        assert(decimal_text(n as nat) == seq![digit_char(n as int)]);
    }
    assert(out@ =~= old(out)@ + decimal_text(n as nat));
}

/// Writes an attribute address as `"<vendor>.<subtype>"`.
pub fn encode_attr(key: (u32, u8)) -> (r: String)
    ensures
        r@ == attr_text(key),
{
    let mut out = String::new();
    push_decimal(&mut out, key.0);
    proof {
        reveal_strlit(".");
    }
    out.append(".");
    push_decimal(&mut out, key.1 as u32);
    assert(out@ =~= attr_text(key));
    out
}

} // verus!
