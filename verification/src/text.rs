//! Character-level text operations used across the library: ASCII
//! case-insensitive comparison, exact comparison, decimal rendering of
//! integers and decimal parsing of `i64` values, each with its specification.
use vstd::prelude::*;

verus! {

/// The code of `c` after ASCII lower-casing (only `A`..=`Z` change).
pub open spec fn ascii_lower_code(c: char) -> u32 {
    if 'A' <= c && c <= 'Z' {
        (c as u32 + 32) as u32
    } else {
        c as u32
    }
}

/// `a` and `b` are equal once both are ASCII lower-cased.
pub open spec fn eq_ignore_ascii_case(a: Seq<char>, b: Seq<char>) -> bool {
    &&& a.len() == b.len()
    &&& forall|i: int| 0 <= i < a.len() ==> #[trigger] ascii_lower_code(a[i]) == ascii_lower_code(b[i])
}

/// Whether `s` begins with `prefix`.
pub open spec fn has_prefix(s: Seq<char>, prefix: Seq<char>) -> bool {
    prefix.len() <= s.len() && s.subrange(0, prefix.len() as int) == prefix
}

/// Compares two characters after ASCII lower-casing.
pub fn char_eq_ignore_ascii_case(a: char, b: char) -> (res: bool)
    ensures
        res == (ascii_lower_code(a) == ascii_lower_code(b)),
{
    let la: u32 = if 'A' <= a && a <= 'Z' { a as u32 + 32 } else { a as u32 };
    let lb: u32 = if 'A' <= b && b <= 'Z' { b as u32 + 32 } else { b as u32 };
    la == lb
}

/// ASCII case-insensitive equality of two strings.
pub fn str_eq_ignore_ascii_case(a: &str, b: &str) -> (res: bool)
    ensures
        res == eq_ignore_ascii_case(a@, b@),
{
    let n = a.unicode_len();
    if n != b.unicode_len() {
        return false;
    }
    let mut i: usize = 0;
    while i < n
        invariant
            n == a@.len(),
            n == b@.len(),
            i <= n,
            forall|j: int| 0 <= j < i ==> #[trigger] ascii_lower_code(a@[j]) == ascii_lower_code(b@[j]),
        decreases n - i,
    {
        if !char_eq_ignore_ascii_case(a.get_char(i), b.get_char(i)) {
            return false;
        }
        i = i + 1;
    }
    true
}

/// Exact equality of two strings.
pub fn str_eq(a: &str, b: &str) -> (res: bool)
    ensures
        res == (a@ == b@),
{
    let n = a.unicode_len();
    if n != b.unicode_len() {
        return false;
    }
    let mut i: usize = 0;
    while i < n
        invariant
            n == a@.len(),
            n == b@.len(),
            i <= n,
            forall|j: int| 0 <= j < i ==> a@[j] == b@[j],
        decreases n - i,
    {
        if a.get_char(i) != b.get_char(i) {
            return false;
        }
        i = i + 1;
    }
    assert(a@ =~= b@);
    true
}

/// The decimal digit character for `d` (meaningful for `d < 10`).
pub open spec fn digit_char(d: nat) -> char {
    if d == 0 { '0' }
    else if d == 1 { '1' }
    else if d == 2 { '2' }
    else if d == 3 { '3' }
    else if d == 4 { '4' }
    else if d == 5 { '5' }
    else if d == 6 { '6' }
    else if d == 7 { '7' }
    else if d == 8 { '8' }
    else { '9' }
}

/// The decimal rendering of `n`, without leading zeros.
pub open spec fn decimal(n: nat) -> Seq<char>
    decreases n,
{
    if n < 10 {
        seq![digit_char(n)]
    } else {
        decimal(n / 10).push(digit_char(n % 10))
    }
}

/// The decimal rendering of a signed integer, with a leading `-` when negative.
pub open spec fn signed_decimal(n: int) -> Seq<char> {
    if n < 0 {
        seq!['-'] + decimal((-n) as nat)
    } else {
        decimal(n as nat)
    }
}

/// Appends `c` to `s`.
#[verifier::external_body]
fn push_char(s: &mut String, c: char)
    ensures
        final(s)@ == old(s)@.push(c),
{
    s.push(c)
}

fn digit(d: u64) -> (c: char)
    requires
        d < 10,
    ensures
        c == digit_char(d as nat),
{
    if d == 0 { '0' }
    else if d == 1 { '1' }
    else if d == 2 { '2' }
    else if d == 3 { '3' }
    else if d == 4 { '4' }
    else if d == 5 { '5' }
    else if d == 6 { '6' }
    else if d == 7 { '7' }
    else if d == 8 { '8' }
    else { '9' }
}

/// Appends the decimal rendering of `n` to `s`.
pub fn push_decimal(s: &mut String, n: u64)
    ensures
        final(s)@ == old(s)@ + decimal(n as nat),
    decreases n,
{
    if n >= 10 {
        push_decimal(s, n / 10);
    }
    push_char(s, digit(n % 10));
    proof {
        if n >= 10 {
            assert(decimal(n as nat) == decimal((n / 10) as nat).push(digit_char((n % 10) as nat)));
        }
    }
    assert(final(s)@ =~= old(s)@ + decimal(n as nat)) by {
        if n < 10 {
            assert(decimal(n as nat) =~= seq![digit_char(n as nat)]);
        }
    }
}

/// Appends the decimal rendering of the signed `n` to `s`.
pub fn push_signed_decimal(s: &mut String, n: i64)
    ensures
        final(s)@ == old(s)@ + signed_decimal(n as int),
{
    if n < 0 {
        push_char(s, '-');
        let magnitude: u64 = if n == i64::MIN { 9223372036854775808u64 } else { (-n) as u64 };
        push_decimal(s, magnitude);
        assert(final(s)@ =~= old(s)@ + signed_decimal(n as int));
    } else {
        push_decimal(s, n as u64);
    }
}

/// Whether `c` is one of `0`..=`9`.
pub open spec fn is_digit(c: char) -> bool {
    '0' <= c && c <= '9'
}

/// Whether every character of `s` is a decimal digit.
pub open spec fn all_digits(s: Seq<char>) -> bool {
    forall|i: int| 0 <= i < s.len() ==> #[trigger] is_digit(s[i])
}

/// The value of the digit character `c`.
pub open spec fn digit_value(c: char) -> int {
    c as int - '0' as int
}

/// The value of the decimal digit string `s` (most significant first).
pub open spec fn digits_value(s: Seq<char>) -> int
    decreases s.len(),
{
    if s.len() == 0 {
        0
    } else {
        digits_value(s.drop_last()) * 10 + digit_value(s.last())
    }
}

/// What `str::parse::<i64>` gives for `s`: an optional `+` or `-`, then one or more
/// decimal digits, whose signed value lies in the range of `i64`; `None` otherwise.
pub open spec fn parse_i64(s: Seq<char>) -> Option<i64> {
    let negative = s.len() > 0 && s[0] == '-';
    let signed = s.len() > 0 && (s[0] == '-' || s[0] == '+');
    let digits = if signed { s.skip(1) } else { s };
    let magnitude = digits_value(digits);
    let value = if negative { -magnitude } else { magnitude };
    if digits.len() == 0 || !all_digits(digits) {
        None
    } else if i64::MIN <= value && value <= i64::MAX {
        Some(value as i64)
    } else {
        None
    }
}

proof fn lemma_digits_value_nonneg(s: Seq<char>)
    requires
        all_digits(s),
    ensures
        digits_value(s) >= 0,
    decreases s.len(),
{
    if s.len() > 0 {
        assert(is_digit(s[s.len() - 1]));
        assert(all_digits(s.drop_last())) by {
            assert forall|i: int| 0 <= i < s.drop_last().len() implies #[trigger] is_digit(s.drop_last()[i]) by {
                assert(is_digit(s[i]));
            }
        }
        lemma_digits_value_nonneg(s.drop_last());
    }
}

/// A digit string is worth at least as much as any of its prefixes.
proof fn lemma_digits_value_prefix(s: Seq<char>, k: int)
    requires
        all_digits(s),
        0 <= k <= s.len(),
    ensures
        digits_value(s) >= digits_value(s.take(k)),
    decreases s.len(),
{
    if k < s.len() {
        let t = s.drop_last();
        assert(all_digits(t)) by {
            assert forall|i: int| 0 <= i < t.len() implies #[trigger] is_digit(t[i]) by {
                assert(is_digit(s[i]));
            }
        }
        lemma_digits_value_prefix(t, k);
        assert(t.take(k) =~= s.take(k));
        lemma_digits_value_nonneg(t);
        assert(is_digit(s[s.len() - 1]));
    } else {
        assert(s.take(k) =~= s);
    }
}

proof fn lemma_decimal_digits(n: nat)
    ensures
        decimal(n).len() >= 1,
        all_digits(decimal(n)),
        digits_value(decimal(n)) == n,
    decreases n,
{
    if n < 10 {
        let s = decimal(n);
        assert(s.drop_last() =~= Seq::<char>::empty());
        assert(s.last() == digit_char(n));
        assert(digit_value(digit_char(n)) == n);
        assert(digits_value(s) == digits_value(s.drop_last()) * 10 + digit_value(s.last()));
        assert(digits_value(Seq::<char>::empty()) == 0);
    } else {
        lemma_decimal_digits(n / 10);
        let s = decimal(n);
        let p = decimal(n / 10);
        assert(s.drop_last() =~= p);
        assert(s.last() == digit_char(n % 10));
        assert(digit_value(digit_char(n % 10)) == n % 10);
        assert(digits_value(s) == digits_value(p) * 10 + digit_value(s.last()));
        assert((n / 10) * 10 + n % 10 == n);
        assert(all_digits(s)) by {
            assert forall|i: int| 0 <= i < s.len() implies #[trigger] is_digit(s[i]) by {
                if i < p.len() {
                    assert(s[i] == p[i]);
                }
            }
        }
    }
}

/// Rendering an `i64` in decimal and parsing it back gives the same value.
pub proof fn law_parse_signed_decimal(n: i64)
    ensures
        parse_i64(signed_decimal(n as int)) == Some(n),
{
    if n < 0 {
        let m = (-n) as nat;
        lemma_decimal_digits(m);
        let s = signed_decimal(n as int);
        assert(s.skip(1) =~= decimal(m));
    } else {
        lemma_decimal_digits(n as nat);
        let s = decimal(n as nat);
        assert(is_digit(s[0]));
    }
}

/// Parses a decimal `i64` as `str::parse::<i64>` does.
pub fn parse_i64_str(s: &str) -> (res: Option<i64>)
    ensures
        res == parse_i64(s@),
{
    let n = s.unicode_len();
    let mut i: usize = 0;
    let mut negative = false;
    if n > 0 {
        let c = s.get_char(0);
        if c == '-' {
            negative = true;
            i = 1;
        } else if c == '+' {
            i = 1;
        }
    }
    let start = i;
    let ghost digits = s@.skip(start as int);
    proof {
        let signed = s@.len() > 0 && (s@[0] == '-' || s@[0] == '+');
        assert(negative == (s@.len() > 0 && s@[0] == '-'));
        assert(start == (if signed { 1usize } else { 0usize }));
        if start == 0 {
            assert(s@.skip(0) =~= s@);
        }
        assert(digits == (if signed { s@.skip(1) } else { s@ }));
    }
    if start == n {
        assert(digits.len() == 0);
        return None;
    }
    let limit: u128 = if negative { 9223372036854775808u128 } else { 9223372036854775807u128 };
    let mut acc: u128 = 0;
    while i < n
        invariant
            n == s@.len(),
            start <= i <= n,
            start < n,
            digits == s@.skip(start as int),
            all_digits(digits.take(i - start)),
            acc as int == digits_value(digits.take(i - start)),
            acc <= limit,
            limit == (if negative { 9223372036854775808u128 } else { 9223372036854775807u128 }),
            negative == (s@.len() > 0 && s@[0] == '-'),
            digits == (if s@.len() > 0 && (s@[0] == '-' || s@[0] == '+') { s@.skip(1) } else { s@ }),
        decreases n - i,
    {
        let c = s.get_char(i);
        assert(digits[i - start] == c);
        if !('0' <= c && c <= '9') {
            assert(!is_digit(digits[i - start]));
            assert(!all_digits(digits));
            return None;
        }
        let d: u128 = (c as u32 - '0' as u32) as u128;
        let ghost prev = digits.take(i - start);
        let ghost next = digits.take(i - start + 1);
        assert(next.drop_last() =~= prev);
        assert(next.last() == c);
        acc = acc * 10 + d;
        i = i + 1;
        assert(all_digits(digits.take(i - start))) by {
            assert forall|j: int| 0 <= j < next.len() implies #[trigger] is_digit(next[j]) by {
                if j < prev.len() {
                    assert(next[j] == prev[j]);
                }
            }
        }
        if acc > limit {
            proof {
                if all_digits(digits) {
                    lemma_digits_value_prefix(digits, i - start);
                    assert(digits_value(digits) > limit);
                }
            }
            return None;
        }
    }
    assert(digits.take(n - start) =~= digits);
    assert(all_digits(digits));
    assert(acc as int == digits_value(digits));
    assert(digits.len() > 0);
    if negative {
        if acc == 9223372036854775808u128 {
            Some(i64::MIN)
        } else {
            Some(-(acc as i64))
        }
    } else {
        Some(acc as i64)
    }
}

} // verus!
