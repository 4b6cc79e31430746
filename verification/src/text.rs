//! Decimal rendering of unsigned integers into `String`s.
use vstd::prelude::*;
use vstd::string::StrSliceExecFns;

verus! {

/// The ASCII digit for `v` in `0..=9`.
pub open spec fn digit_char(v: int) -> char {
    (48 + v) as char
}

/// `c` is one of the ASCII digits `'0'..='9'`.
pub open spec fn is_ascii_digit(c: char) -> bool {
    '0' <= c <= '9'
}

/// The decimal representation of `v`, most significant digit first, with no
/// leading zeros (zero itself is `"0"`).
pub open spec fn decimal(v: nat) -> Seq<char>
    decreases v,
{
    if v < 10 {
        seq![digit_char(v as int)]
    } else {
        decimal(v / 10).push(digit_char((v % 10) as int))
    }
}

/// `decimal(v)` left-padded with `'0'` up to `width` characters, as the
/// `{:0width$}` format does for an unsigned integer.
pub open spec fn zero_padded(v: nat, width: nat) -> Seq<char> {
    let digits = decimal(v);
    if digits.len() < width {
        Seq::new((width - digits.len()) as nat, |i: int| '0') + digits
    } else {
        digits
    }
}

/// Every character of a decimal rendering is an ASCII digit.
pub proof fn lemma_decimal_digits(v: nat)
    ensures
        decimal(v).len() >= 1,
        forall|i: int| 0 <= i < decimal(v).len() ==> is_ascii_digit(#[trigger] decimal(v)[i]),
    decreases v,
{
    if v >= 10 {
        lemma_decimal_digits(v / 10);
    }
}

/// Every character of a zero-padded rendering is an ASCII digit.
pub proof fn lemma_zero_padded_digits(v: nat, width: nat)
    ensures
        zero_padded(v, width).len() >= width,
        forall|i: int| 0 <= i < zero_padded(v, width).len() ==> is_ascii_digit(#[trigger] zero_padded(v, width)[i]),
{
    lemma_decimal_digits(v);
    let digits = decimal(v);
    if digits.len() < width {
        let pad = Seq::new((width - digits.len()) as nat, |i: int| '0');
        assert forall|i: int| 0 <= i < zero_padded(v, width).len() implies is_ascii_digit(#[trigger] zero_padded(v, width)[i]) by {
            if i < pad.len() {
                assert(zero_padded(v, width)[i] == pad[i]);
            } else {
                assert(zero_padded(v, width)[i] == digits[i - pad.len()]);
            }
        }
    }
}

/// Appends one character to a string (`String::push`).
#[verifier::external_body]
pub(crate) fn push_char(s: &mut String, c: char)
    ensures
        final(s)@ == old(s)@.push(c),
{
    s.push(c)
}

fn digit(v: u64) -> (c: char)
    requires
        v < 10,
    ensures
        c == digit_char(v as int),
{
    if v == 0 { '0' }
    else if v == 1 { '1' }
    else if v == 2 { '2' }
    else if v == 3 { '3' }
    else if v == 4 { '4' }
    else if v == 5 { '5' }
    else if v == 6 { '6' }
    else if v == 7 { '7' }
    else if v == 8 { '8' }
    else { '9' }
}

/// Number of decimal digits of `v`.
pub fn decimal_len(v: u64) -> (n: usize)
    ensures
        n == decimal(v as nat).len(),
        1 <= n <= 20,
    decreases v,
{
    proof {
        lemma_decimal_len_small(v as nat, 20);
    }
    if v < 10 {
        1
    } else {
        let n = decimal_len(v / 10);
        n + 1
    }
}

proof fn lemma_decimal_len_small(v: nat, k: nat)
    requires
        v <= u64::MAX,
        k == 20 || v < pow10(k),
        k >= 1,
    ensures
        decimal(v).len() <= k,
    decreases v,
{
    reveal_with_fuel(pow10, 21);
    if v >= 10 {
        assert(v / 10 < pow10((k - 1) as nat)) by {
            assert(pow10(k) == 10 * pow10((k - 1) as nat));
        }
        lemma_decimal_len_small(v / 10, (k - 1) as nat);
    }
}

spec fn pow10(k: nat) -> nat
    decreases k,
{
    if k == 0 { 1 } else { 10 * pow10((k - 1) as nat) }
}

/// Appends the decimal representation of `v`.
pub fn push_decimal(s: &mut String, v: u64)
    ensures
        final(s)@ == old(s)@ + decimal(v as nat),
    decreases v,
{
    if v >= 10 {
        push_decimal(s, v / 10);
    }
    push_char(s, digit(v % 10));
    proof {
        if v < 10 {
            assert(decimal(v as nat) =~= seq![digit_char(v as int)]);
        }
    }
    assert(s@ =~= old(s)@ + decimal(v as nat));
}

/// Appends `v` in decimal, left-padded with zeros to `width` characters.
pub fn push_zero_padded(s: &mut String, v: u64, width: usize)
    ensures
        final(s)@ == old(s)@ + zero_padded(v as nat, width as nat),
{
    let n = decimal_len(v);
    let mut k: usize = n;
    let ghost start = s@;
    while k < width
        invariant
            n <= k,
            n == decimal(v as nat).len(),
            k <= width ==> s@ == start + Seq::new((k - n) as nat, |i: int| '0'),
            k > width ==> k == n && s@ == start,
        decreases width - k,
    {
        push_char(s, '0');
        assert(s@ =~= start + Seq::new((k + 1 - n) as nat, |i: int| '0'));
        k = k + 1;
    }
    push_decimal(s, v);
    if n < width {
        assert(s@ =~= start + zero_padded(v as nat, width as nat));
    } else {
        assert(s@ =~= start + zero_padded(v as nat, width as nat));
    }
}

/// String equality: true exactly when the two strings hold the same
/// characters.
pub(crate) fn str_eq(a: &str, b: &str) -> (r: bool)
    ensures
        r == (a@ == b@),
{
    let n = a.unicode_len();
    if n != b.unicode_len() {
        return false;
    }
    let mut i: usize = 0;
    while i < n
        invariant
            n == a@.len(),
            n == b@.len(),
            i <= n,
            forall|k: int| 0 <= k < i ==> a@[k] == b@[k],
        decreases n - i,
    {
        if a.get_char(i) != b.get_char(i) {
            return false;
        }
        i = i + 1;
    }
    assert(a@ =~= b@);
    true
}

} // verus!
