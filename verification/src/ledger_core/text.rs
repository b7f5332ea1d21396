//! Decimal and hexadecimal rendering of integers into strings.

use vstd::prelude::*;

verus! {

/// The ASCII digit character for a value below ten.
pub open spec fn digit_char(d: nat) -> char {
    (('0' as u8) + d) as char
}

/// The decimal rendering of `n` without leading zeros.
pub open spec fn spec_decimal(n: nat) -> Seq<char>
    decreases n,
{
    if n < 10 {
        seq![digit_char(n)]
    } else {
        spec_decimal(n / 10).push(digit_char(n % 10))
    }
}

/// `s` left-padded with `'0'` characters up to `width` characters.
pub open spec fn pad_zeros(s: Seq<char>, width: nat) -> Seq<char> {
    if s.len() >= width {
        s
    } else {
        Seq::new((width - s.len()) as nat, |i: int| '0') + s
    }
}

/// Appends one character to a string.
#[verifier::external_body]
pub(crate) fn push_char(s: &mut String, c: char)
    ensures
        final(s)@ == old(s)@.push(c),
{
    s.push(c);
}

/// Appends the decimal rendering of `x` to `s`.
pub fn push_decimal(s: &mut String, x: u128)
    ensures
        final(s)@ == old(s)@ + spec_decimal(x as nat),
    decreases x,
{
    if x >= 10 {
        push_decimal(s, x / 10);
    }
    let d: u8 = (x % 10) as u8;
    let c: char = (48u8 + d) as char;
    let ghost before = s@;
    push_char(s, c);
    proof {
        if x >= 10 {
            assert(spec_decimal(x as nat) == spec_decimal((x / 10) as nat).push(digit_char((x % 10) as nat)));
        }
        assert(s@ =~= old(s)@ + spec_decimal(x as nat));
    }
}

/// Appends the decimal rendering of `x`, left-padded with zeros to `width`
/// characters.
pub fn push_padded_decimal(s: &mut String, x: u128, width: usize)
    ensures
        final(s)@ == old(s)@ + pad_zeros(spec_decimal(x as nat), width as nat),
{
    let digits = decimal_string(x);
    let len: usize = digits.as_str().unicode_len();
    let ghost start = s@;
    let mut k: usize = len;
    while k < width
        invariant
            len == spec_decimal(x as nat).len(),
            len <= k,
            k < width ==> k <= width,
            k > len ==> k <= width,
            s@ == start + Seq::new((k - len) as nat, |i: int| '0'),
        decreases width - k,
    {
        push_char(s, '0');
        proof {
            assert(s@ =~= start + Seq::new((k + 1 - len) as nat, |i: int| '0'));
        }
        k = k + 1;
    }
    s.append(digits.as_str());
    proof {
        if len >= width {
            assert(s@ =~= start + spec_decimal(x as nat));
        } else {
            assert(s@ =~= start + (Seq::new((width - len) as nat, |i: int| '0') + spec_decimal(x as nat)));
        }
    }
}

/// The decimal rendering of a signed integer.
pub open spec fn spec_signed_decimal(x: int) -> Seq<char> {
    if x < 0 {
        seq!['-'] + spec_decimal((-x) as nat)
    } else {
        spec_decimal(x as nat)
    }
}

/// Appends the decimal rendering of a signed integer.
pub fn push_signed_decimal(s: &mut String, x: i128)
    ensures
        final(s)@ == old(s)@ + spec_signed_decimal(x as int),
{
    if x < 0 {
        push_char(s, '-');
        let magnitude: u128 = (-(x + 1)) as u128 + 1;
        push_decimal(s, magnitude);
        proof {
            assert(s@ =~= old(s)@ + (seq!['-'] + spec_decimal((-x) as nat)));
        }
    } else {
        push_decimal(s, x as u128);
    }
}

/// The decimal rendering of `x`.
pub fn decimal_string(x: u128) -> (s: String)
    ensures
        s@ == spec_decimal(x as nat),
{
    let mut s = String::new();
    push_decimal(&mut s, x);
    proof {
        assert(s@ =~= spec_decimal(x as nat));
    }
    s
}

} // verus!

verus! {

/// Whether `c` is an ASCII decimal digit.
pub open spec fn is_digit_char(c: char) -> bool {
    '0' <= c && c <= '9'
}

/// The value of an ASCII decimal digit.
pub open spec fn digit_value(c: char) -> nat {
    ((c as u32) - ('0' as u32)) as nat
}

/// The number written by a sequence of decimal digits (most significant first).
pub open spec fn digits_value(s: Seq<char>) -> nat
    decreases s.len(),
{
    if s.len() == 0 {
        0
    } else {
        digits_value(s.drop_last()) * 10 + digit_value(s.last())
    }
}

/// The digits of an unsigned decimal literal: an optional leading `+`
/// followed by the digits.
pub open spec fn unsigned_digits(s: Seq<char>) -> Seq<char> {
    if s.len() > 0 && s[0] == '+' {
        s.drop_first()
    } else {
        s
    }
}

/// The value of an unsigned decimal literal that fits in 128 bits, as std's
/// `u128::from_str` reads it: an optional `+`, then at least one digit.
pub open spec fn spec_parse_u128(s: Seq<char>) -> Option<u128> {
    if unsigned_digits(s).len() > 0 && all_digits(unsigned_digits(s)) && digits_value(unsigned_digits(s)) <= u128::MAX {
        Some(digits_value(unsigned_digits(s)) as u128)
    } else {
        None
    }
}

/// Whether every character of `d` is an ASCII decimal digit.
pub open spec fn all_digits(d: Seq<char>) -> bool {
    forall|i: int| 0 <= i < d.len() ==> is_digit_char(#[trigger] d[i])
}

proof fn lemma_digits_value_prefix_monotone(d: Seq<char>, k: int)
    requires
        0 <= k <= d.len(),
        forall|i: int| 0 <= i < d.len() ==> is_digit_char(#[trigger] d[i]),
    ensures
        digits_value(d.take(k)) <= digits_value(d),
    decreases d.len() - k,
{
    if k < d.len() {
        lemma_digits_value_prefix_monotone(d, k + 1);
        assert(d.take(k + 1).drop_last() =~= d.take(k));
        assert(digits_value(d.take(k + 1)) == digits_value(d.take(k)) * 10 + digit_value(d.take(k + 1).last()));
    } else {
        assert(d.take(k) =~= d);
    }
}

/// Parse an unsigned decimal literal into a `u128`.
pub fn parse_u128(s: &str) -> (r: Option<u128>)
    ensures
        r == spec_parse_u128(s@),
{
    let n: usize = s.unicode_len();
    let mut i: usize = 0;
    if n > 0 && s.get_char(0) == '+' {
        i = 1;
    }
    let start: usize = i;
    let ghost d = unsigned_digits(s@);
    assert(d =~= s@.subrange(start as int, n as int));
    if start == n {
        return None;
    }
    let mut acc: u128 = 0;
    let mut overflow = false;
    while i < n
        invariant
            n == s@.len(),
            start <= i <= n,
            start < n,
            d == s@.subrange(start as int, n as int),
            d == unsigned_digits(s@),
            forall|j: int| 0 <= j < i - start ==> is_digit_char(#[trigger] d[j]),
            !overflow ==> acc == digits_value(d.take(i - start)),
            overflow ==> digits_value(d.take(i - start)) > u128::MAX,
        decreases n - i,
    {
        let c = s.get_char(i);
        if !('0' <= c && c <= '9') {
            proof {
                assert(d[i - start] == c);
                assert(!is_digit_char(d[i - start]));
                assert(!all_digits(d));
                assert(spec_parse_u128(s@) is None);
            }
            return None;
        }
        let v: u128 = ((c as u32) - ('0' as u32)) as u128;
        proof {
            assert(d[i - start] == c);
            assert(d.take(i - start + 1).drop_last() =~= d.take(i - start));
            assert(digits_value(d.take(i - start + 1)) == digits_value(d.take(i - start)) * 10 + v);
        }
        if !overflow {
            if acc > (u128::MAX - v) / 10 {
                overflow = true;
            } else {
                acc = acc * 10 + v;
            }
        }
        i = i + 1;
    }
    assert(d.take(n - start) =~= d);
    if overflow {
        None
    } else {
        Some(acc)
    }
}

} // verus!
