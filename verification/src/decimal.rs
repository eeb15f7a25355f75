//! Fixed-point decimal numbers whose arithmetic is carried out by `rust_decimal`.
//!
//! A [`Decimal`] holds a mantissa and a scale and stands for `mantissa / 10^scale`.
//! Contracts speak of [`Decimal::value`], the number counted in units of `10^-28`,
//! which is an exact integer for every well-formed decimal.
use crate::text::nat_text;
use vstd::prelude::*;

verus! {

/// `10^n` as a mathematical integer.
pub open spec fn pow10(n: nat) -> int
    decreases n,
{
    if n == 0 {
        1
    } else {
        10 * pow10((n - 1) as nat)
    }
}

/// Largest magnitude of a mantissa: `2^96 - 1`.
pub open spec fn max_mantissa() -> int {
    79228162514264337593543950335int
}

/// A (mantissa, scale) pair is representable.
pub open spec fn wf_parts(v: (int, nat)) -> bool {
    -max_mantissa() <= v.0 <= max_mantissa() && v.1 <= 28
}

/// The number a (mantissa, scale) pair stands for, in units of `10^-28`.
pub open spec fn value_of(v: (int, nat)) -> int {
    v.0 * pow10((28 - v.1) as nat)
}

/// The larger of two scales.
pub open spec fn max_nat(a: nat, b: nat) -> nat {
    if a >= b {
        a
    } else {
        b
    }
}

/// The mantissa of `v` once written with `s` fractional digits (`s >= v.1`).
pub open spec fn rescaled(v: (int, nat), s: nat) -> int {
    v.0 * pow10((s - v.1) as nat)
}

/// Magnitude bound of a mantissa.
pub open spec fn fits96(m: int) -> bool {
    -max_mantissa() <= m <= max_mantissa()
}

/// Both operands, aligned to the larger scale, and their sum fit in 96 bits:
/// `rust_decimal` then adds without rounding.
pub open spec fn add_exact(a: (int, nat), b: (int, nat)) -> bool {
    let s = max_nat(a.1, b.1);
    &&& fits96(rescaled(a, s))
    &&& fits96(rescaled(b, s))
    &&& fits96(rescaled(a, s) + rescaled(b, s))
}

/// As [`add_exact`], for the difference.
pub open spec fn sub_exact(a: (int, nat), b: (int, nat)) -> bool {
    let s = max_nat(a.1, b.1);
    &&& fits96(rescaled(a, s))
    &&& fits96(rescaled(b, s))
    &&& fits96(rescaled(a, s) - rescaled(b, s))
}

/// The product of the mantissas fits in 96 bits and the scales add up to at most 28:
/// `rust_decimal` then multiplies without rounding.
pub open spec fn mul_exact(a: (int, nat), b: (int, nat)) -> bool {
    &&& a.1 + b.1 <= 28
    &&& fits96(a.0 * b.0)
}

/// The quotient `a / b` is itself representable: some mantissa of at most 96 bits at a
/// scale of at most 28 stands for exactly that number.
pub open spec fn div_exact(a: (int, nat), b: (int, nat)) -> bool {
    exists|m: int, s: nat|
        s <= 28 && fits96(m) && #[trigger] value_of((m, s)) * value_of(b) == value_of(a) * pow10(28)
}

/// `rust_decimal`'s sum of `a` and `b` comes back, and it is the exact sum (as
/// [`checked_add`] promises whenever the aligned operands and the sum fit in 96 bits).
pub open spec fn add_is_exact(a: (int, nat), b: (int, nat)) -> bool {
    match decimal_checked_add(a, b) {
        Some(c) => value_of(c) == value_of(a) + value_of(b),
        None => false,
    }
}

/// `rust_decimal`'s difference `a - b` comes back, and it is exact.
pub open spec fn sub_is_exact(a: (int, nat), b: (int, nat)) -> bool {
    match decimal_checked_sub(a, b) {
        Some(c) => value_of(c) == value_of(a) - value_of(b),
        None => false,
    }
}

/// `rust_decimal`'s product of `a` and `b` comes back, and it is exact (values are in
/// units of `10^-28`, hence the factor).
pub open spec fn mul_is_exact(a: (int, nat), b: (int, nat)) -> bool {
    match decimal_checked_mul(a, b) {
        Some(c) => value_of(c) * pow10(28) == value_of(a) * value_of(b),
        None => false,
    }
}

/// `rust_decimal`'s quotient `a / b` comes back, and it is exact (as [`checked_div`]
/// promises whenever the quotient is representable).
pub open spec fn div_is_exact(a: (int, nat), b: (int, nat)) -> bool {
    match decimal_checked_div(a, b) {
        Some(c) => value_of(c) * value_of(b) == value_of(a) * pow10(28),
        None => false,
    }
}

/// What `rust_decimal::Decimal::checked_add` returns, as (mantissa, scale).
pub uninterp spec fn decimal_checked_add(a: (int, nat), b: (int, nat)) -> Option<(int, nat)>;

/// What `rust_decimal::Decimal::checked_sub` returns, as (mantissa, scale).
pub uninterp spec fn decimal_checked_sub(a: (int, nat), b: (int, nat)) -> Option<(int, nat)>;

/// What `rust_decimal::Decimal::checked_mul` returns, as (mantissa, scale).
pub uninterp spec fn decimal_checked_mul(a: (int, nat), b: (int, nat)) -> Option<(int, nat)>;

/// What `rust_decimal::Decimal::checked_div` returns, as (mantissa, scale).
pub uninterp spec fn decimal_checked_div(a: (int, nat), b: (int, nat)) -> Option<(int, nat)>;

/// `n` zero characters.
pub open spec fn zeros(n: nat) -> Seq<char> {
    Seq::new(n, |i: int| '0')
}

/// The digits of a mantissa's magnitude, most significant first, left-padded with zeros
/// to at least `scale` digits (no digits at all for a zero mantissa at scale zero).
pub open spec fn padded_digits(v: (int, nat)) -> Seq<char> {
    let m: nat = if v.0 < 0 { (-v.0) as nat } else { v.0 as nat };
    let ds = if m == 0 { Seq::<char>::empty() } else { nat_text(m) };
    if ds.len() < v.1 {
        zeros((v.1 - ds.len()) as nat) + ds
    } else {
        ds
    }
}

/// How `rust_decimal::Decimal` displays `mantissa / 10^scale` with `places` fractional
/// digits: a `-` for a negative mantissa; the whole digits ("0" when there are none);
/// then, when `places > 0`, a point and the first `places` fractional digits, padded
/// with zeros (the rest is cut off, not rounded).
pub open spec fn decimal_text_places(v: (int, nat), places: nat) -> Seq<char> {
    let p = padded_digits(v);
    let whole = p.take(p.len() - v.1);
    let frac = p.skip(p.len() - v.1);
    let body = (if whole.len() == 0 { seq!['0'] } else { whole }) + (if places > 0 {
        seq!['.'] + (frac + zeros(places)).take(places as int)
    } else {
        Seq::<char>::empty()
    });
    if v.0 < 0 {
        seq!['-'] + body
    } else {
        body
    }
}

/// How `rust_decimal::Decimal` displays `mantissa / 10^scale`: with as many fractional
/// digits as the scale.
pub open spec fn decimal_text(v: (int, nat)) -> Seq<char> {
    decimal_text_places(v, v.1)
}

/// What `rust_decimal::Decimal::from_str` parses from a text, as (mantissa, scale).
pub uninterp spec fn decimal_parse(s: Seq<char>) -> Option<(int, nat)>;

/// A decimal number `mantissa / 10^scale`.
#[derive(Clone, Copy, Debug)]
pub struct Decimal {
    pub mantissa: i128,
    pub scale: u32,
}

impl View for Decimal {
    type V = (int, nat);

    open spec fn view(&self) -> (int, nat) {
        (self.mantissa as int, self.scale as nat)
    }
}

/// The (mantissa, scale) view of an optional decimal.
pub open spec fn opt_view(r: Option<Decimal>) -> Option<(int, nat)> {
    match r {
        Some(d) => Some(d@),
        None => None,
    }
}

impl Decimal {
    /// The mantissa fits in 96 bits and the scale is at most 28.
    pub open spec fn wf(self) -> bool {
        wf_parts(self@)
    }

    /// The number in units of `10^-28`.
    pub open spec fn value(self) -> int {
        value_of(self@)
    }

    /// `num / 10^scale`.
    pub fn new(num: i64, scale: u32) -> (d: Decimal)
        requires
            scale <= 28,
        ensures
            d.wf(),
            d@ == (num as int, scale as nat),
    {
        proof {
            assert(-max_mantissa() <= num as int <= max_mantissa());
        }
        Decimal { mantissa: num as i128, scale }
    }

    /// The integer `num`.
    pub fn from_int(num: i64) -> (d: Decimal)
        ensures
            d.wf(),
            d@ == (num as int, 0nat),
    {
        Decimal::new(num, 0)
    }

    /// Zero.
    pub fn zero() -> (d: Decimal)
        ensures
            d.wf(),
            d@ == (0int, 0nat),
            d.value() == 0,
    {
        Decimal::new(0, 0)
    }

    /// One.
    pub fn one() -> (d: Decimal)
        ensures
            d.wf(),
            d@ == (1int, 0nat),
    {
        Decimal::new(1, 0)
    }
}

/// Calls `rust_decimal::Decimal::checked_add`: the sum, or `None` on overflow.
/// Claimed of it: the result is a function of the operands, it is representable,
/// and it is the exact sum whenever the aligned operands and the sum fit in 96 bits.
#[verifier::external_body]
pub(crate) fn checked_add(a: Decimal, b: Decimal) -> (r: Option<Decimal>)
    requires
        a.wf(),
        b.wf(),
    ensures
        opt_view(r) == decimal_checked_add(a@, b@),
        r matches Some(d) ==> d.wf(),
        add_exact(a@, b@) ==> r.is_some() && r.unwrap().value() == a.value() + b.value(),
{
    let x = rust_decimal::Decimal::from_i128_with_scale(a.mantissa, a.scale);
    let y = rust_decimal::Decimal::from_i128_with_scale(b.mantissa, b.scale);
    x.checked_add(y).map(|d| Decimal { mantissa: d.mantissa(), scale: d.scale() })
}

/// Calls `rust_decimal::Decimal::checked_sub`: the difference, or `None` on overflow.
/// Claimed of it: the result is a function of the operands, it is representable,
/// and it is the exact difference whenever the aligned operands and the difference fit in 96 bits.
#[verifier::external_body]
pub(crate) fn checked_sub(a: Decimal, b: Decimal) -> (r: Option<Decimal>)
    requires
        a.wf(),
        b.wf(),
    ensures
        opt_view(r) == decimal_checked_sub(a@, b@),
        r matches Some(d) ==> d.wf(),
        sub_exact(a@, b@) ==> r.is_some() && r.unwrap().value() == a.value() - b.value(),
{
    let x = rust_decimal::Decimal::from_i128_with_scale(a.mantissa, a.scale);
    let y = rust_decimal::Decimal::from_i128_with_scale(b.mantissa, b.scale);
    x.checked_sub(y).map(|d| Decimal { mantissa: d.mantissa(), scale: d.scale() })
}

/// Calls `rust_decimal::Decimal::checked_mul`: the product, or `None` on overflow.
/// Claimed of it: the result is a function of the operands, it is representable,
/// and it is the exact product whenever the product of the mantissas fits in 96 bits
/// and the scales add up to at most 28.
#[verifier::external_body]
pub(crate) fn checked_mul(a: Decimal, b: Decimal) -> (r: Option<Decimal>)
    requires
        a.wf(),
        b.wf(),
    ensures
        opt_view(r) == decimal_checked_mul(a@, b@),
        r matches Some(d) ==> d.wf(),
        mul_exact(a@, b@) ==> r.is_some() && r.unwrap().value() == a@.0 * b@.0 * pow10(
            (28 - a@.1 - b@.1) as nat,
        ),
{
    let x = rust_decimal::Decimal::from_i128_with_scale(a.mantissa, a.scale);
    let y = rust_decimal::Decimal::from_i128_with_scale(b.mantissa, b.scale);
    x.checked_mul(y).map(|d| Decimal { mantissa: d.mantissa(), scale: d.scale() })
}

/// Calls `rust_decimal::Decimal::checked_div`: the quotient, or `None` when the divisor
/// is zero or the quotient overflows. Claimed of it: the result is a function of the
/// operands, it is representable, division by zero gives `None`, zero divided by a
/// non-zero number gives zero, and a quotient that is itself representable comes back
/// exactly (the digits are produced until the remainder is zero; rounding happens only
/// when the scale or the 96 bits run out).
#[verifier::external_body]
pub(crate) fn checked_div(a: Decimal, b: Decimal) -> (r: Option<Decimal>)
    requires
        a.wf(),
        b.wf(),
    ensures
        opt_view(r) == decimal_checked_div(a@, b@),
        r matches Some(d) ==> d.wf(),
        b.value() == 0 ==> r.is_none(),
        a.value() == 0 && b.value() != 0 ==> r.is_some() && r.unwrap().value() == 0,
        b.value() != 0 && div_exact(a@, b@) ==> r.is_some() && r.unwrap().value() * b.value()
            == a.value() * pow10(28),
{
    let x = rust_decimal::Decimal::from_i128_with_scale(a.mantissa, a.scale);
    let y = rust_decimal::Decimal::from_i128_with_scale(b.mantissa, b.scale);
    x.checked_div(y).map(|d| Decimal { mantissa: d.mantissa(), scale: d.scale() })
}

/// Calls `<rust_decimal::Decimal as PartialOrd>::lt`, which orders decimals by the
/// number they stand for.
#[verifier::external_body]
pub(crate) fn less_than(a: Decimal, b: Decimal) -> (r: bool)
    requires
        a.wf(),
        b.wf(),
    ensures
        r == (a.value() < b.value()),
{
    let x = rust_decimal::Decimal::from_i128_with_scale(a.mantissa, a.scale);
    let y = rust_decimal::Decimal::from_i128_with_scale(b.mantissa, b.scale);
    x < y
}

/// Calls `<rust_decimal::Decimal as PartialEq>::eq`, which is true when both decimals
/// stand for the same number (whatever their scales).
#[verifier::external_body]
pub(crate) fn same_value(a: Decimal, b: Decimal) -> (r: bool)
    requires
        a.wf(),
        b.wf(),
    ensures
        r == (a.value() == b.value()),
{
    let x = rust_decimal::Decimal::from_i128_with_scale(a.mantissa, a.scale);
    let y = rust_decimal::Decimal::from_i128_with_scale(b.mantissa, b.scale);
    x == y
}

/// Calls `<rust_decimal::Decimal as Display>::fmt` through `format!`: the sign, the
/// whole digits and, at a positive scale, a point and `scale` fractional digits.
#[verifier::external_body]
pub(crate) fn to_text(d: Decimal) -> (s: String)
    requires
        d.wf(),
    ensures
        s@ == decimal_text(d@),
{
    format!("{}", rust_decimal::Decimal::from_i128_with_scale(d.mantissa, d.scale))
}

/// Calls `<rust_decimal::Decimal as Display>::fmt` with a precision, through `format!`:
/// the fractional digits are cut off or padded to `places` digits. The text is built in
/// a 32-character buffer (the whole digits, a point and the fractional digits) that
/// panics when full; a representable decimal has at most 29 whole digits, so `places`
/// is at most 2.
#[verifier::external_body]
pub(crate) fn to_text_places(d: Decimal, places: usize) -> (s: String)
    requires
        d.wf(),
        places <= 2,
    ensures
        s@ == decimal_text_places(d@, places as nat),
{
    format!("{:.*}", places, rust_decimal::Decimal::from_i128_with_scale(d.mantissa, d.scale))
}

/// Calls `<rust_decimal::Decimal as FromStr>::from_str`. Claimed of it: the outcome is a
/// function of the text, and what it gives back is representable.
#[verifier::external_body]
pub(crate) fn parse_decimal(s: &str) -> (r: Option<Decimal>)
    ensures
        opt_view(r) == decimal_parse(s@),
        r matches Some(d) ==> d.wf(),
{
    match <rust_decimal::Decimal as std::str::FromStr>::from_str(s) {
        Ok(d) => Some(Decimal { mantissa: d.mantissa(), scale: d.scale() }),
        Err(_) => None,
    }
}


/// A (mantissa, scale) pair rounded to an integer, halves to the even neighbour:
/// unchanged at scale zero, else the magnitude's quotient by `10^scale`, plus one when
/// the remainder is above half, or exactly half with an odd quotient, signed as before,
/// at scale zero.
pub open spec fn round_half_even_parts(v: (int, nat)) -> (int, nat) {
    if v.1 == 0 {
        v
    } else {
        let m = if v.0 < 0 { -v.0 } else { v.0 };
        let d = pow10(v.1);
        let q = m / d;
        let rem = m % d;
        let half = 5 * pow10((v.1 - 1) as nat);
        let q2 = if rem > half || (rem == half && q % 2 == 1) { q + 1 } else { q };
        (if v.0 < 0 { -q2 } else { q2 }, 0nat)
    }
}

/// Calls `rust_decimal::Decimal::round` (round to an integer, midpoint to even).
/// Claimed of it, as its source shows: the result is [`round_half_even_parts`] of the
/// operand, and it is representable.
#[verifier::external_body]
pub(crate) fn round_to_integer(d: Decimal) -> (r: Decimal)
    requires
        d.wf(),
    ensures
        r@ == round_half_even_parts(d@),
        r.wf(),
{
    let r = rust_decimal::Decimal::from_i128_with_scale(d.mantissa, d.scale).round();
    Decimal { mantissa: r.mantissa(), scale: r.scale() }
}

/// `v` rounded to one fractional digit, halves to the even neighbour: ten times `v`
/// rounded to an integer, read with scale one (`v` itself when ten times it overflows).
pub open spec fn round_one_place_parts(v: (int, nat)) -> (int, nat) {
    match decimal_checked_mul(v, (10int, 0nat)) {
        Some(t) => (round_half_even_parts(t).0, 1nat),
        None => v,
    }
}

/// Rounds to one fractional digit, halves to the even neighbour (unchanged when ten
/// times the value overflows).
pub fn round_one_place(d: Decimal) -> (r: Decimal)
    requires
        d.wf(),
    ensures
        r@ == round_one_place_parts(d@),
        r.wf(),
{
    match checked_mul(d, Decimal::from_int(10)) {
        Some(t) => {
            let n = round_to_integer(t);
            Decimal { mantissa: n.mantissa, scale: 1 }
        },
        None => d,
    }
}

} // verus!
