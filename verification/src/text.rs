use vstd::prelude::*;

verus! {

/// Whether `c` has the Unicode `White_Space` property, as `char::is_whitespace` decides:
/// the 25 code points U+0009 to U+000D, U+0020, U+0085, U+00A0, U+1680, U+2000 to U+200A,
/// U+2028, U+2029, U+202F, U+205F and U+3000.
pub open spec fn char_is_whitespace(c: char) -> bool {
    let n = c as u32;
    (0x09 <= n <= 0x0d) || n == 0x20 || n == 0x85 || n == 0xa0 || n == 0x1680 || (0x2000 <= n
        <= 0x200a) || n == 0x2028 || n == 0x2029 || n == 0x202f || n == 0x205f || n == 0x3000
}

/// Whether `c` has the Unicode `Alphabetic` property, as `char::is_alphabetic` decides.
pub uninterp spec fn char_is_alphabetic(c: char) -> bool;

/// Whether `c` is alphabetic or numeric in Unicode, as `char::is_alphanumeric` decides.
pub uninterp spec fn char_is_alphanumeric(c: char) -> bool;

/// Calls `char::is_whitespace`; its result is named `char_is_whitespace`.
#[verifier::external_body]
pub(crate) fn is_whitespace(c: char) -> (r: bool)
    ensures
        r == char_is_whitespace(c),
{
    c.is_whitespace()
}

/// Calls `char::is_alphabetic`; its result is named `char_is_alphabetic`.
#[verifier::external_body]
pub(crate) fn is_alphabetic(c: char) -> (r: bool)
    ensures
        r == char_is_alphabetic(c),
{
    c.is_alphabetic()
}

/// Calls `char::is_alphanumeric`; its result is named `char_is_alphanumeric`.
#[verifier::external_body]
pub(crate) fn is_alphanumeric(c: char) -> (r: bool)
    ensures
        r == char_is_alphanumeric(c),
{
    c.is_alphanumeric()
}

/// `String::push` appends one character at the end of the string.
pub assume_specification[ String::push ](s: &mut String, ch: char)
    ensures
        final(s)@ == old(s)@.push(ch),
;

/// An ASCII decimal digit, as `char::is_ascii_digit` decides.
pub open spec fn spec_is_digit(c: char) -> bool {
    '0' <= c && c <= '9'
}

pub fn is_ascii_digit(c: char) -> (r: bool)
    ensures
        r == spec_is_digit(c),
{
    '0' <= c && c <= '9'
}

/// A character that may continue an identifier.
pub open spec fn spec_is_ident_char(c: char) -> bool {
    char_is_alphanumeric(c) || c == '_'
}

pub fn is_ident_char(c: char) -> (r: bool)
    ensures
        r == spec_is_ident_char(c),
{
    is_alphanumeric(c) || c == '_'
}

/// Whether the string `s` holds exactly the characters of `lit`.
pub fn string_is(s: &str, lit: &str) -> (r: bool)
    ensures
        r == (s@ == lit@),
{
    let n = lit.unicode_len();
    if s.unicode_len() != n {
        return false;
    }
    let mut i: usize = 0;
    while i < n
        invariant
            n == lit@.len(),
            n == s@.len(),
            i <= n,
            forall|j: int| 0 <= j < i ==> s@[j] == lit@[j],
        decreases n - i,
    {
        if s.get_char(i) != lit.get_char(i) {
            return false;
        }
        i = i + 1;
    }
    assert(s@ =~= lit@);
    true
}

/// A `String` holding the characters of `v`.
pub fn string_from_chars(v: &Vec<char>) -> (s: String)
    ensures
        s@ == v@,
{
    let mut s = String::new();
    let mut i: usize = 0;
    while i < v.len()
        invariant
            i <= v.len(),
            s@ == v@.subrange(0, i as int),
        decreases v.len() - i,
    {
        s.push(v[i]);
        i = i + 1;
        assert(s@ =~= v@.subrange(0, i as int));
    }
    assert(v@.subrange(0, v.len() as int) =~= v@);
    s
}

/// The characters of `s`, in order.
pub fn chars_of(s: &str) -> (v: Vec<char>)
    ensures
        v@ == s@,
{
    let mut v: Vec<char> = Vec::new();
    for c in it: s.chars()
        invariant
            v@ == it.seq().subrange(0, it.index() as int),
    {
        v.push(c);
    }
    v
}

/// The value of a string of decimal digits.
pub open spec fn digits_value(d: Seq<char>) -> int
    decreases d.len(),
{
    if d.len() == 0 {
        0
    } else {
        digits_value(d.drop_last()) * 10 + (d.last() as int - '0' as int)
    }
}

pub open spec fn all_digits(d: Seq<char>) -> bool {
    forall|i: int| 0 <= i < d.len() ==> spec_is_digit(#[trigger] d[i])
}

/// The `i64` that `str::parse::<i64>` reads from `v`: an optional `+` or `-`, then one or
/// more decimal digits, denoting a value in range.
pub open spec fn parse_i64_text(v: Seq<char>) -> Option<i64> {
    let neg = v.len() > 0 && v[0] == '-';
    let d = if v.len() > 0 && (v[0] == '-' || v[0] == '+') {
        v.skip(1)
    } else {
        v
    };
    if d.len() == 0 || !all_digits(d) {
        None
    } else {
        let m = if neg {
            -digits_value(d)
        } else {
            digits_value(d)
        };
        if i64::MIN <= m <= i64::MAX {
            Some(m as i64)
        } else {
            None
        }
    }
}

proof fn lemma_digits_value_grows(d: Seq<char>, i: int)
    requires
        0 <= i <= d.len(),
        all_digits(d),
    ensures
        0 <= digits_value(d.take(i)) <= digits_value(d),
    decreases d.len() - i,
{
    if i < d.len() {
        lemma_digits_value_grows(d, i + 1);
        assert(d.take(i + 1).drop_last() =~= d.take(i));
        assert(spec_is_digit(d[i]));
    } else {
        assert(d.take(i) =~= d);
        lemma_digits_value_nonneg(d);
    }
}

proof fn lemma_digits_value_nonneg(d: Seq<char>)
    requires
        all_digits(d),
    ensures
        0 <= digits_value(d),
    decreases d.len(),
{
    if d.len() > 0 {
        assert(all_digits(d.drop_last()));
        lemma_digits_value_nonneg(d.drop_last());
        assert(spec_is_digit(d[d.len() - 1]));
    }
}

/// Reads a decimal `i64` as `str::parse::<i64>` does.
pub fn parse_i64(s: &str) -> (r: Option<i64>)
    ensures
        r == parse_i64_text(s@),
{
    let v = chars_of(s);
    let n = v.len();
    let neg = n > 0 && v[0] == '-';
    let start: usize = if n > 0 && (v[0] == '-' || v[0] == '+') {
        1
    } else {
        0
    };
    let ghost d = if n > 0 && (v@[0] == '-' || v@[0] == '+') {
        v@.skip(1)
    } else {
        v@
    };
    assert(d =~= v@.subrange(start as int, n as int));
    if start == n {
        return None;
    }
    let mut mag: i128 = 0;
    let mut i: usize = start;
    #[verifier::loop_isolation(false)]
    while i < n
        invariant
            start <= i <= n,
            n == v@.len(),
            d == v@.subrange(start as int, n as int),
            0 <= mag <= 9223372036854775808,
            mag == digits_value(d.take(i - start)),
            all_digits(d.take(i - start)),
        decreases n - i,
    {
        let c = v[i];
        if !is_ascii_digit(c) {
            assert(d[i - start] == c);
            assert(!all_digits(d));
            return None;
        }
        proof {
            assert(d.take(i - start + 1).drop_last() =~= d.take(i - start));
            assert(d.take(i - start + 1).last() == c);
            assert(all_digits(d.take(i - start + 1)));
        }
        mag = mag * 10 + (c as u32 - '0' as u32) as i128;
        i = i + 1;
        if mag > 9223372036854775808 {
            proof {
                if all_digits(d) {
                    lemma_digits_value_grows(d, i - start);
                }
            }
            return None;
        }
    }
    assert(d.take(n - start) =~= d);
    if neg {
        Some((0 - mag) as i64)
    } else if mag <= 9223372036854775807 {
        Some(mag as i64)
    } else {
        None
    }
}

/// The decimal digit for `d` (`0` to `9`).
pub open spec fn digit_char(d: int) -> char {
    if d == 0 {
        '0'
    } else if d == 1 {
        '1'
    } else if d == 2 {
        '2'
    } else if d == 3 {
        '3'
    } else if d == 4 {
        '4'
    } else if d == 5 {
        '5'
    } else if d == 6 {
        '6'
    } else if d == 7 {
        '7'
    } else if d == 8 {
        '8'
    } else {
        '9'
    }
}

/// The decimal numeral of `n`, as `format!("{}", n)` writes it.
pub open spec fn decimal(n: nat) -> Seq<char>
    decreases n,
{
    if n < 10 {
        seq![digit_char(n as int)]
    } else {
        decimal(n / 10).push(digit_char((n % 10) as int))
    }
}

fn digit(d: usize) -> (c: char)
    requires
        d < 10,
    ensures
        c == digit_char(d as int),
{
    if d == 0 {
        '0'
    } else if d == 1 {
        '1'
    } else if d == 2 {
        '2'
    } else if d == 3 {
        '3'
    } else if d == 4 {
        '4'
    } else if d == 5 {
        '5'
    } else if d == 6 {
        '6'
    } else if d == 7 {
        '7'
    } else if d == 8 {
        '8'
    } else {
        '9'
    }
}

/// Appends the decimal numeral of `n`.
pub fn push_decimal(s: &mut String, n: usize)
    ensures
        final(s)@ == old(s)@ + decimal(n as nat),
    decreases n,
{
    if n >= 10 {
        push_decimal(s, n / 10);
    }
    s.push(digit(n % 10));
    proof {
        if n >= 10 {
            assert(decimal(n as nat) == decimal((n / 10) as nat).push(digit_char((n % 10) as int)));
        }
    }
    assert(s@ =~= old(s)@ + decimal(n as nat));
}

} // verus!
