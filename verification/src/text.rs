//! Text helpers: the few `str` operations the library's parsers use, each a thin
//! call into `std` with the behaviour its documentation states, and integer formatting.
use vstd::prelude::*;

verus! {

/// An ASCII decimal digit.
pub open spec fn is_digit(c: char) -> bool {
    '0' <= c && c <= '9'
}

/// The value of an ASCII decimal digit.
pub open spec fn digit_value(c: char) -> int {
    (c as int) - ('0' as int)
}

/// The ASCII digit for `0 <= d < 10`.
pub open spec fn digit_char(d: int) -> char {
    ((d + ('0' as int)) as u32) as char
}

/// Every character is a digit.
pub open spec fn all_digits(s: Seq<char>) -> bool {
    forall|i: int| 0 <= i < s.len() ==> is_digit(#[trigger] s[i])
}

/// The number a run of digits spells, most significant first.
pub open spec fn digits_value(s: Seq<char>) -> int
    decreases s.len(),
{
    if s.len() == 0 {
        0
    } else {
        digits_value(s.drop_last()) * 10 + digit_value(s.last())
    }
}

/// The decimal digits of a natural number, without leading zeros ("0" for zero).
pub open spec fn nat_text(n: nat) -> Seq<char>
    decreases n,
{
    if n < 10 {
        seq![digit_char(n as int)]
    } else {
        nat_text(n / 10) + seq![digit_char((n % 10) as int)]
    }
}

/// How `Display` writes an integer: an optional minus sign and its decimal digits.
pub open spec fn int_text(i: int) -> Seq<char> {
    if i < 0 {
        seq!['-'] + nat_text((-i) as nat)
    } else {
        nat_text(i as nat)
    }
}

/// What `i64::from_str` accepts: an optional `+` or `-` followed by one or more
/// ASCII digits whose value is in range.
pub open spec fn spec_parse_int(s: Seq<char>, min: int, max: int) -> Option<int> {
    let neg = s.len() > 0 && s[0] == '-';
    let signed = s.len() > 0 && (s[0] == '-' || s[0] == '+');
    let digits = if signed { s.skip(1) } else { s };
    let v = if neg { -digits_value(digits) } else { digits_value(digits) };
    if digits.len() > 0 && all_digits(digits) && min <= v <= max {
        Some(v)
    } else {
        None
    }
}

/// What an unsigned integer type's `from_str` accepts: an optional `+` (a `-` is
/// refused) followed by one or more ASCII digits whose value is at most `max`.
pub open spec fn spec_parse_uint(s: Seq<char>, max: int) -> Option<int> {
    let digits = if s.len() > 0 && s[0] == '+' { s.skip(1) } else { s };
    let v = digits_value(digits);
    if digits.len() > 0 && all_digits(digits) && v <= max {
        Some(v)
    } else {
        None
    }
}

/// The characters that `char::is_whitespace` accepts: those with the Unicode
/// `White_Space` property.
pub open spec fn is_white_space(c: char) -> bool {
    ||| ('\u{9}' <= c && c <= '\u{d}')
    ||| c == ' '
    ||| c == '\u{85}'
    ||| c == '\u{a0}'
    ||| c == '\u{1680}'
    ||| ('\u{2000}' <= c && c <= '\u{200a}')
    ||| c == '\u{2028}'
    ||| c == '\u{2029}'
    ||| c == '\u{202f}'
    ||| c == '\u{205f}'
    ||| c == '\u{3000}'
}

/// `s` without its leading white space.
pub open spec fn trim_start(s: Seq<char>) -> Seq<char>
    decreases s.len(),
{
    if s.len() > 0 && is_white_space(s[0]) {
        trim_start(s.skip(1))
    } else {
        s
    }
}

/// `s` without its trailing white space.
pub open spec fn trim_end(s: Seq<char>) -> Seq<char>
    decreases s.len(),
{
    if s.len() > 0 && is_white_space(s.last()) {
        trim_end(s.drop_last())
    } else {
        s
    }
}

/// `s` without leading and trailing white space.
pub open spec fn trimmed(s: Seq<char>) -> Seq<char> {
    trim_end(trim_start(s))
}

/// `p` occurs in `s` at position `i`.
pub open spec fn occurs_at(s: Seq<char>, p: Seq<char>, i: int) -> bool {
    0 <= i && i + p.len() <= s.len() && s.subrange(i, i + p.len()) == p
}

/// The first position at or after `k` where `p` occurs in `s`.
pub open spec fn find_from(s: Seq<char>, p: Seq<char>, k: int) -> Option<int>
    decreases s.len() + 1 - k,
{
    if k < 0 || k + p.len() > s.len() {
        None
    } else if occurs_at(s, p, k) {
        Some(k)
    } else {
        find_from(s, p, k + 1)
    }
}

/// The first position where `p` occurs in `s`.
pub open spec fn find(s: Seq<char>, p: Seq<char>) -> Option<int> {
    find_from(s, p, 0)
}

/// `p` occurs somewhere in `s`.
pub open spec fn occurs_in(s: Seq<char>, p: Seq<char>) -> bool {
    find(s, p) is Some
}

/// `s` starts with `p`.
pub open spec fn starts_with(s: Seq<char>, p: Seq<char>) -> bool {
    s.len() >= p.len() && s.subrange(0, p.len() as int) == p
}

/// `a` and `b` are the parts of `s` before and after the first occurrence of `sep`.
pub open spec fn split_matches(s: Seq<char>, sep: Seq<char>, a: Seq<char>, b: Seq<char>) -> bool {
    &&& find(s, sep) is Some
    &&& a == s.take(find(s, sep).unwrap())
    &&& b == s.skip(find(s, sep).unwrap() + sep.len())
}

/// Calls `str::strip_prefix`: the rest of `s` after `prefix` when `s` starts with it
/// (copied into a `String`).
#[verifier::external_body]
pub(crate) fn strip_prefix(s: &str, prefix: &str) -> (r: Option<String>)
    ensures
        r.is_some() == starts_with(s@, prefix@),
        r.is_some() ==> r.unwrap()@ == s@.skip(prefix@.len() as int),
{
    s.strip_prefix(prefix).map(|rest| rest.to_string())
}

/// Calls `str::split_once`: the parts before and after the first occurrence of `sep`
/// (copied into `String`s).
#[verifier::external_body]
pub(crate) fn split_once(s: &str, sep: &str) -> (r: Option<(String, String)>)
    ensures
        r.is_some() == find(s@, sep@).is_some(),
        r.is_some() ==> split_matches(s@, sep@, r.unwrap().0@, r.unwrap().1@),
{
    s.split_once(sep).map(|(a, b)| (a.to_string(), b.to_string()))
}

/// Calls `str::trim`: `s` without leading and trailing white space.
#[verifier::external_body]
pub(crate) fn trim(s: &str) -> (r: &str)
    ensures
        r@ == trimmed(s@),
{
    s.trim()
}

/// Calls `str::contains` with a `&str` pattern.
#[verifier::external_body]
pub(crate) fn contains(s: &str, pattern: &str) -> (r: bool)
    ensures
        r == occurs_in(s@, pattern@),
{
    s.contains(pattern)
}

/// Calls `<i64 as FromStr>::from_str`, keeping only whether it succeeded.
#[verifier::external_body]
pub(crate) fn parse_i64(s: &str) -> (r: Option<i64>)
    ensures
        match r {
            Some(v) => spec_parse_int(s@, i64::MIN as int, i64::MAX as int) == Some(v as int),
            None => spec_parse_int(s@, i64::MIN as int, i64::MAX as int) is None,
        },
{
    s.parse::<i64>().ok()
}

/// Calls `<u16 as FromStr>::from_str`: an optional `+` and decimal digits up to 65535
/// (a leading `-` is refused, as for every unsigned type).
#[verifier::external_body]
pub(crate) fn parse_u16(s: &str) -> (r: Option<u16>)
    ensures
        match r {
            Some(v) => spec_parse_uint(s@, 65535) == Some(v as int),
            None => spec_parse_uint(s@, 65535) is None,
        },
{
    s.parse::<u16>().ok()
}

/// Calls `<i64 as Display>::fmt` through `format!`.
#[verifier::external_body]
pub(crate) fn i64_text(v: i64) -> (s: String)
    ensures
        s@ == int_text(v as int),
{
    format!("{}", v)
}

/// Calls `<u64 as Display>::fmt` through `format!`.
#[verifier::external_body]
pub(crate) fn u64_text(v: u64) -> (s: String)
    ensures
        s@ == int_text(v as int),
{
    format!("{}", v)
}

/// `a` followed by `b`.
pub(crate) fn join(a: String, b: &str) -> (r: String)
    ensures
        r@ == a@ + b@,
{
    let mut r = a;
    r.append(b);
    r
}

/// A `String` holding `s`.
pub(crate) fn owned(s: &str) -> (r: String)
    ensures
        r@ == s@,
{
    String::from_str(s)
}

/// Writing a natural number in decimal and reading the digits back gives the number;
/// the text is one or more ASCII digits.
pub proof fn lemma_nat_text_reads_back(n: nat)
    ensures
        nat_text(n).len() > 0,
        all_digits(nat_text(n)),
        digits_value(nat_text(n)) == n,
    decreases n,
{
    if n < 10 {
        let s = nat_text(n);
        assert(s == seq![digit_char(n as int)]);
        assert(digit_value(digit_char(n as int)) == n);
        assert(s.drop_last() =~= Seq::<char>::empty());
        assert(digits_value(s.drop_last()) == 0);
        assert(digits_value(s) == digits_value(s.drop_last()) * 10 + digit_value(s.last()));
    } else {
        lemma_nat_text_reads_back(n / 10);
        let s = nat_text(n);
        let d = (n % 10) as int;
        assert(digit_value(digit_char(d)) == d);
        assert(s.drop_last() =~= nat_text(n / 10));
        assert(s.last() == digit_char(d));
        assert(digits_value(s) == digits_value(s.drop_last()) * 10 + digit_value(s.last()));
        assert(n == (n / 10) * 10 + n % 10);
        assert forall|i: int| 0 <= i < s.len() implies is_digit(#[trigger] s[i]) by {
            if i < s.len() - 1 {
                assert(s[i] == nat_text(n / 10)[i]);
            }
        }
    }
}

/// An integer written as `Display` writes it is read back by the integer parser, and
/// has no white space to trim; each of its characters is a digit or a leading `-`.
pub proof fn lemma_int_text_reads_back(v: int, min: int, max: int)
    requires
        min <= v <= max,
    ensures
        spec_parse_int(int_text(v), min, max) == Some(v),
        trimmed(int_text(v)) == int_text(v),
        forall|i: int| 0 <= i < int_text(v).len() ==> is_digit(#[trigger] int_text(v)[i]) || (i == 0
            && int_text(v)[i] == '-'),
{
    let t = int_text(v);
    if v < 0 {
        lemma_nat_text_reads_back((-v) as nat);
        assert(t.skip(1) =~= nat_text((-v) as nat));
        assert forall|i: int| 0 <= i < t.len() implies is_digit(#[trigger] t[i]) || (i == 0 && t[i] == '-') by {
            if i > 0 {
                assert(t[i] == nat_text((-v) as nat)[i - 1]);
            }
        }
    } else {
        lemma_nat_text_reads_back(v as nat);
    }
    assert(t.len() > 0);
    assert(!is_white_space(t[0]));
    assert(!is_white_space(t.last())) by {
        assert(is_digit(t[t.len() - 1]) || (t.len() - 1 == 0 && t[t.len() - 1] == '-'));
    }
    assert(trim_start(t) == t);
    assert(trim_end(t) == t);
}

/// Searching from `k` finds `j` when `p` occurs at `j` and nowhere from `k` before it.
pub proof fn lemma_find_from_first(s: Seq<char>, p: Seq<char>, k: int, j: int)
    requires
        0 <= k <= j,
        occurs_at(s, p, j),
        forall|m: int| k <= m < j ==> !occurs_at(s, p, m),
    ensures
        find_from(s, p, k) == Some(j),
    decreases j - k,
{
    if k < j {
        lemma_find_from_first(s, p, k + 1, j);
    }
}

} // verus!
