//! Arbitrary-precision decimals and their strict conversion into the
//! unsigned 64-bit fixed-point domain.

use vstd::prelude::*;

use bigdecimal::BigDecimal;
use bigdecimal::ToPrimitive;
use bigdecimal::num_bigint::BigInt;
use bigdecimal::num_bigint::Sign;
use std::str::FromStr;

use crate::error::ConversionError;
use crate::error::Field;

verus! {

/// Ten to the power `e`.
pub open spec fn pow10(e: nat) -> nat
    decreases e,
{
    if e == 0 {
        1
    } else {
        10 * pow10((e - 1) as nat)
    }
}

/// The number that a big-endian sequence of base-ten digits writes.
pub open spec fn digits_value(digits: Seq<u8>) -> nat
    decreases digits.len(),
{
    if digits.len() == 0 {
        0
    } else {
        digits_value(digits.drop_last()) * 10 + digits.last() as nat
    }
}

/// Every element is a base-ten digit.
pub open spec fn all_digits(digits: Seq<u8>) -> bool {
    forall|i: int| 0 <= i < digits.len() ==> #[trigger] digits[i] < 10
}

/// Every element from index `from` on is zero.
pub open spec fn zeros_from(digits: Seq<u8>, from: int) -> bool {
    forall|i: int| from <= i < digits.len() ==> #[trigger] digits[i] == 0
}

/// The mathematical content of a [`Decimal`]: the number
/// `(-1)^negative * unscaled / 10^scale`.
pub struct DecimalView {
    pub negative: bool,
    pub unscaled: nat,
    pub scale: int,
}

impl DecimalView {
    /// The number has no fractional part.
    pub open spec fn is_integral(self) -> bool {
        self.scale <= 0 || self.unscaled % pow10(self.scale as nat) == 0
    }

    /// The magnitude of the number, fractional part dropped.
    pub open spec fn whole_magnitude(self) -> nat {
        if self.scale <= 0 {
            self.unscaled * pow10((-self.scale) as nat)
        } else {
            self.unscaled / pow10(self.scale as nat)
        }
    }

    /// The number, fractional part dropped (rounded towards zero).
    pub open spec fn whole(self) -> int {
        if self.negative {
            -(self.whole_magnitude() as int)
        } else {
            self.whole_magnitude() as int
        }
    }

    /// The number is an integer that an unsigned 64-bit word can hold.
    pub open spec fn fits_u64(self) -> bool {
        self.is_integral() && 0 <= self.whole() <= u64::MAX
    }

    /// The number multiplied by `10^places`.
    pub open spec fn shifted(self, places: nat) -> DecimalView {
        DecimalView { negative: self.negative, unscaled: self.unscaled, scale: self.scale - places }
    }

    /// The decimal that writes the integer `value` with scale zero.
    pub open spec fn of_u64(value: u64) -> DecimalView {
        DecimalView { negative: false, unscaled: value as nat, scale: 0 }
    }

    /// Both views denote the same number.
    pub open spec fn same_number(self, other: DecimalView) -> bool {
        let a = if self.negative { -(self.unscaled as int) } else { self.unscaled as int };
        let b = if other.negative { -(other.unscaled as int) } else { other.unscaled as int };
        if self.scale >= other.scale {
            a == b * pow10((self.scale - other.scale) as nat)
        } else {
            a * pow10((other.scale - self.scale) as nat) == b
        }
    }
}

/// An arbitrary-precision decimal: a sign, base-ten digits (most significant
/// first) and a scale, the number of digits after the decimal point. A
/// negative scale stands for trailing zeros that are not written out.
#[derive(Debug)]
pub struct Decimal {
    negative: bool,
    digits: Vec<u8>,
    scale: i64,
}

impl View for Decimal {
    type V = DecimalView;

    closed spec fn view(&self) -> DecimalView {
        DecimalView {
            negative: self.negative,
            unscaled: digits_value(self.digits@),
            scale: self.scale as int,
        }
    }
}

/// The magnitude of the number, fractional part dropped, where 64 unsigned
/// bits hold it.
pub open spec fn whole_if_u64(v: DecimalView) -> Option<u64> {
    if v.whole_magnitude() <= u64::MAX {
        Some(v.whole_magnitude() as u64)
    } else {
        None
    }
}

/// The strict conversion: the integer that the decimal denotes, where it is
/// one and fits in 64 unsigned bits.
pub open spec fn fixed_u64(v: DecimalView) -> Option<u64> {
    if v.fits_u64() {
        Some(v.whole() as u64)
    } else {
        None
    }
}

/// The strict conversion of `v * 10^places`, with the error that names
/// `field` where it fails.
pub open spec fn fixed_result(v: DecimalView, places: nat, field: Field) -> Result<
    u64,
    ConversionError,
> {
    match fixed_u64(v.shifted(places)) {
        Some(n) => Ok(n),
        None => Err(ConversionError { field }),
    }
}

/// A power of ten is positive.
pub proof fn lemma_pow10_positive(e: nat)
    ensures
        pow10(e) > 0,
    decreases e,
{
    if e > 0 {
        lemma_pow10_positive((e - 1) as nat);
    }
}

/// A higher power of ten is no smaller.
pub proof fn lemma_pow10_monotonic(a: nat, b: nat)
    requires
        a <= b,
    ensures
        pow10(a) <= pow10(b),
    decreases b,
{
    if a < b {
        lemma_pow10_monotonic(a, (b - 1) as nat);
    }
}

/// The strict conversion gives `n` exactly for the decimals that denote the
/// number `n`: the result is never rounded, and re-expanding it gives back
/// the number that went in.
pub proof fn lemma_fixed_is_exact(v: DecimalView, n: u64)
    ensures
        fixed_u64(v) == Some(n) <==> DecimalView::of_u64(n).same_number(v),
{
    let mag = v.unscaled as int;
    if v.scale <= 0 {
        let p = pow10((-v.scale) as nat) as int;
        lemma_pow10_positive((-v.scale) as nat);
        assert(mag * p >= 0 && (mag * p == 0 <==> mag == 0) && (-mag) * p == -(mag * p))
            by (nonlinear_arith)
            requires
                p > 0,
                mag >= 0,
        ;
    } else {
        let p = pow10(v.scale as nat) as int;
        lemma_pow10_positive(v.scale as nat);
        assert(mag == p * (mag / p) + mag % p && 0 <= mag % p < p && mag / p >= 0
            && (mag / p == 0 && mag % p == 0 ==> mag == 0)) by (nonlinear_arith)
            requires
                p > 0,
                mag >= 0,
        ;
        let k = n as int;
        assert(k * p == mag ==> mag % p == 0 && mag / p == k) by (nonlinear_arith)
            requires
                p > 0,
                mag >= 0,
                k >= 0,
        ;
        assert(k * p == -mag ==> mag == 0 && k == 0) by (nonlinear_arith)
            requires
                p > 0,
                mag >= 0,
                k >= 0,
        ;
        assert(mag % p == 0 && mag / p == k ==> k * p == mag) by (nonlinear_arith)
            requires
                p > 0,
                mag >= 0,
                mag == p * (mag / p) + mag % p,
        ;
    }
}

/// The strict conversion refuses every decimal with a fractional part, every
/// negative number and every number wider than 64 unsigned bits.
pub proof fn lemma_fixed_refuses(v: DecimalView)
    ensures
        !v.is_integral() ==> fixed_u64(v) is None,
        v.negative && v.unscaled > 0 ==> fixed_u64(v) is None,
        v.whole_magnitude() > u64::MAX ==> fixed_u64(v) is None,
{
    let mag = v.unscaled as int;
    if v.negative && v.unscaled > 0 {
        if v.scale <= 0 {
            let p = pow10((-v.scale) as nat) as int;
            lemma_pow10_positive((-v.scale) as nat);
            assert(mag * p > 0) by (nonlinear_arith)
                requires
                    p > 0,
                    mag > 0,
            ;
        } else {
            let p = pow10(v.scale as nat) as int;
            lemma_pow10_positive(v.scale as nat);
            assert(mag % p == 0 ==> mag / p > 0) by (nonlinear_arith)
                requires
                    p > 0,
                    mag > 0,
            ;
        }
    }
}

/// A digit string is the number of its first part, shifted, plus the number
/// of its last `k` digits.
pub proof fn lemma_digits_split(digits: Seq<u8>, k: nat)
    requires
        k <= digits.len(),
    ensures
        digits_value(digits) == digits_value(digits.subrange(0, digits.len() - k)) * pow10(k)
            + digits_value(digits.subrange(digits.len() - k, digits.len() as int)),
    decreases k,
{
    let n = digits.len() as int;
    if k == 0 {
        assert(digits.subrange(0, n) =~= digits);
        assert(digits_value(digits) * 1 == digits_value(digits)) by (nonlinear_arith);
    } else {
        let front = digits.drop_last();
        let tail = digits.subrange(n - k, n);
        lemma_digits_split(front, (k - 1) as nat);
        assert(front.subrange(0, front.len() - (k - 1)) =~= digits.subrange(0, n - k));
        assert(tail.drop_last() =~= front.subrange(front.len() - (k - 1), front.len() as int));
        let a = digits_value(digits.subrange(0, n - k)) as int;
        let t = digits_value(tail.drop_last()) as int;
        let p = pow10((k - 1) as nat) as int;
        assert((a * p + t) * 10 == a * (10 * p) + t * 10) by (nonlinear_arith);
    }
}

/// A string of `n` digits writes a number below `10^n`.
pub proof fn lemma_digits_bound(digits: Seq<u8>)
    requires
        all_digits(digits),
    ensures
        digits_value(digits) < pow10(digits.len()),
    decreases digits.len(),
{
    if digits.len() > 0 {
        lemma_digits_bound(digits.drop_last());
    }
}

/// A digit string writes zero exactly when all its digits are zero.
pub proof fn lemma_digits_zero(digits: Seq<u8>)
    ensures
        digits_value(digits) == 0 <==> zeros_from(digits, 0),
    decreases digits.len(),
{
    if digits.len() > 0 {
        let front = digits.drop_last();
        lemma_digits_zero(front);
        if digits_value(digits) == 0 {
            assert forall|i: int| 0 <= i < digits.len() implies #[trigger] digits[i] == 0 by {
                if i < front.len() {
                    assert(front[i] == 0);
                }
            }
        }
    }
}

/// Whether every digit from index `from` on is zero.
fn tail_is_zero(digits: &Vec<u8>, from: usize) -> (r: bool)
    requires
        from <= digits.len(),
    ensures
        r == zeros_from(digits@, from as int),
{
    let mut i: usize = from;
    while i < digits.len()
        invariant
            from <= i <= digits.len(),
            forall|j: int| from <= j < i ==> #[trigger] digits@[j] == 0,
        decreases digits.len() - i,
    {
        if digits[i] != 0 {
            return false;
        }
        i += 1;
    }
    true
}

/// Calls [`bigdecimal::BigDecimal::to_u64`] on the decimal that is not
/// negative and has the given base-ten digits and scale. The contract
/// repeats what the source does with such a decimal: it brings it to scale
/// zero, which drops the fraction, and returns the result if it fits. Scales
/// far from the digit count are kept out because the crate builds the power
/// of ten that lies between the two scales.
#[verifier::external_body]
fn whole_to_u64(digits: &Vec<u8>, scale: i64) -> (r: Option<u64>)
    requires
        all_digits(digits@),
        -19 <= scale <= digits.len(),
    ensures
        r == whole_if_u64(
            DecimalView { negative: false, unscaled: digits_value(digits@), scale: scale as int },
        ),
{
    let unscaled = BigInt::from_radix_be(Sign::Plus, digits, 10)?;
    BigDecimal::new(unscaled, scale).to_u64()
}

/// Ten to the twentieth: more than 64 bits hold.
proof fn lemma_pow10_20()
    ensures
        pow10(20) == 100000000000000000000,
{
    reveal_with_fuel(pow10, 21);
}

/// The strict conversion on the parts of a decimal.
fn fixed_from_parts(negative: bool, digits: &Vec<u8>, scale: i128) -> (r: Option<u64>)
    requires
        all_digits(digits@),
        scale <= i64::MAX,
    ensures
        r == fixed_u64(
            DecimalView { negative, unscaled: digits_value(digits@), scale: scale as int },
        ),
{
    let ghost mag = digits_value(digits@) as int;
    let len = digits.len();
    proof {
        lemma_digits_zero(digits@);
        lemma_digits_bound(digits@);
    }
    if tail_is_zero(digits, 0) {
        proof {
            if scale > 0 {
                lemma_pow10_positive(scale as nat);
                let p = pow10(scale as nat) as int;
                assert(0int % p == 0 && 0int / p == 0) by (nonlinear_arith)
                    requires
                        p > 0,
                ;
            } else {
                let p = pow10((-scale) as nat) as int;
                assert(0 * p == 0) by (nonlinear_arith);
            }
        }
        return Some(0);
    }
    if negative {
        proof {
            if scale > 0 {
                lemma_pow10_positive(scale as nat);
                let p = pow10(scale as nat) as int;
                assert(mag % p == 0 ==> mag / p > 0) by (nonlinear_arith)
                    requires
                        p > 0,
                        mag > 0,
                ;
            } else {
                lemma_pow10_positive((-scale) as nat);
                let p = pow10((-scale) as nat) as int;
                assert(mag * p > 0) by (nonlinear_arith)
                    requires
                        p > 0,
                        mag > 0,
                ;
            }
        }
        return None;
    }
    if scale < -19 {
        proof {
            lemma_pow10_20();
            lemma_pow10_monotonic(20, (-scale) as nat);
            let p = pow10((-scale) as nat) as int;
            assert(mag * p >= p) by (nonlinear_arith)
                requires
                    p > 0,
                    mag > 0,
            ;
        }
        return None;
    }
    if scale > 0 {
        if scale >= len as i128 {
            proof {
                lemma_pow10_monotonic(len as nat, scale as nat);
                let p = pow10(scale as nat) as int;
                assert(mag % p == mag) by (nonlinear_arith)
                    requires
                        0 < mag < p,
                ;
            }
            return None;
        }
        let cut: usize = len - (scale as usize);
        let zero_tail = tail_is_zero(digits, cut);
        proof {
            let k = scale as nat;
            let tail = digits@.subrange(len - k, len as int);
            let a = digits_value(digits@.subrange(0, len - k)) as int;
            let t = digits_value(tail) as int;
            let p = pow10(k) as int;
            lemma_digits_split(digits@, k);
            lemma_digits_zero(tail);
            lemma_digits_bound(tail);
            lemma_pow10_positive(k);
            assert(zeros_from(tail, 0) <==> zeros_from(digits@, cut as int)) by {
                if zeros_from(tail, 0) {
                    assert forall|i: int| cut <= i < digits@.len() implies #[trigger] digits@[i]
                        == 0 by {
                        assert(tail[i - cut] == 0);
                    }
                }
                if zeros_from(digits@, cut as int) {
                    assert forall|i: int| 0 <= i < tail.len() implies #[trigger] tail[i] == 0 by {
                    }
                }
            }
            assert(mag % p == t) by (nonlinear_arith)
                requires
                    mag == a * p + t,
                    0 <= t < p,
                    0 <= a,
            ;
        }
        if !zero_tail {
            return None;
        }
    }
    whole_to_u64(digits, scale as i64)
}

/// The digits and the scale of [`bigdecimal::BigDecimal::from`] applied to
/// `value`: base-ten digits that write `value`, and scale zero.
#[verifier::external_body]
fn parts_of_u64(value: u64) -> (r: (Vec<u8>, i64))
    ensures
        all_digits(r.0@),
        digits_value(r.0@) == value,
        r.1 == 0,
{
    let (unscaled, scale) = BigDecimal::from(value).into_bigint_and_exponent();
    (unscaled.to_radix_be(10).1, scale)
}

/// The sign (`true` for minus), the base-ten digits and the scale that
/// [`bigdecimal::BigDecimal::from_str`] reads from a text, or `None` where it
/// refuses the text.
pub uninterp spec fn decimal_of_text(text: Seq<char>) -> Option<(bool, Seq<u8>, int)>;

/// The view of parsed parts.
pub open spec fn parts_view(parts: Option<(bool, Vec<u8>, i64)>) -> Option<(bool, Seq<u8>, int)> {
    match parts {
        Some(p) => Some((p.0, p.1@, p.2 as int)),
        None => None,
    }
}

/// Calls [`bigdecimal::BigDecimal::from_str`] and takes the result apart
/// into sign, base-ten digits and scale.
#[verifier::external_body]
fn parse_parts(text: &str) -> (r: Option<(bool, Vec<u8>, i64)>)
    ensures
        parts_view(r) == decimal_of_text(text@),
{
    let parsed = BigDecimal::from_str(text).ok()?;
    let (unscaled, scale) = parsed.into_bigint_and_exponent();
    let (sign, digits) = unscaled.to_radix_be(10);
    Some((sign == Sign::Minus, digits, scale))
}

/// Whether every element is a base-ten digit.
fn digits_are_decimal(digits: &Vec<u8>) -> (r: bool)
    ensures
        r == all_digits(digits@),
{
    let mut i: usize = 0;
    while i < digits.len()
        invariant
            i <= digits.len(),
            forall|j: int| 0 <= j < i ==> #[trigger] digits@[j] < 10,
        decreases digits.len() - i,
    {
        if digits[i] >= 10 {
            return false;
        }
        i += 1;
    }
    true
}

impl Decimal {
    #[verifier::type_invariant]
    spec fn digits_well_formed(self) -> bool {
        all_digits(self.digits@)
    }

    /// The decimal with the given sign, digits and scale; `None` where an
    /// element of `digits` is not a base-ten digit.
    pub fn from_parts(negative: bool, digits: Vec<u8>, scale: i64) -> (r: Option<Decimal>)
        ensures
            r is Some <==> all_digits(digits@),
            r matches Some(d) ==> d@ == (DecimalView {
                negative,
                unscaled: digits_value(digits@),
                scale: scale as int,
            }),
    {
        if digits_are_decimal(&digits) {
            Some(Decimal { negative, digits, scale })
        } else {
            None
        }
    }

    /// The decimal that writes `value`.
    pub fn from_u64(value: u64) -> (r: Decimal)
        ensures
            r@ == DecimalView::of_u64(value),
    {
        let (digits, scale) = parts_of_u64(value);
        Decimal { negative: false, digits, scale }
    }

    /// Reads a decimal from its text form: an optional sign, digits with an
    /// optional point, and an optional exponent.
    pub fn parse(text: &str) -> (r: Option<Decimal>)
        ensures
            r is Some <==> Self::text_is_decimal(text@),
            r matches Some(d) ==> d@ == Self::view_of_text(text@),
    {
        match parse_parts(text) {
            Some((negative, digits, scale)) => Self::from_parts(negative, digits, scale),
            None => None,
        }
    }

    /// [`Decimal::parse`] reads the text.
    pub open spec fn text_is_decimal(text: Seq<char>) -> bool {
        decimal_of_text(text) matches Some(parts) && all_digits(parts.1)
    }

    /// The number that a text denotes, where [`Decimal::parse`] reads it.
    pub open spec fn view_of_text(text: Seq<char>) -> DecimalView {
        let parts = decimal_of_text(text)->0;
        DecimalView { negative: parts.0, unscaled: digits_value(parts.1), scale: parts.2 }
    }

    /// Whether the sign is minus.
    pub fn is_negative(&self) -> (r: bool)
        ensures
            r == self@.negative,
    {
        self.negative
    }

    /// The base-ten digits, most significant first.
    pub fn digits(&self) -> (r: &Vec<u8>)
        ensures
            all_digits(r@),
            digits_value(r@) == self@.unscaled,
    {
        proof {
            use_type_invariant(self);
        }
        &self.digits
    }

    /// The number of digits after the decimal point.
    pub fn scale(&self) -> (r: i64)
        ensures
            r == self@.scale,
    {
        self.scale
    }
}

impl Clone for Decimal {
    fn clone(&self) -> (r: Decimal)
        ensures
            r@ == self@,
    {
        proof {
            use_type_invariant(self);
        }
        Decimal { negative: self.negative, digits: self.digits.clone(), scale: self.scale }
    }
}

/// Converts a decimal into the fixed-point domain. Fails, naming `field`,
/// unless the number is non-negative, has no fractional part and fits in 64
/// unsigned bits.
pub fn to_fixed_u64(value: &Decimal, field: Field) -> (r: Result<u64, ConversionError>)
    ensures
        match r {
            Ok(n) => value@.fits_u64() && n == value@.whole(),
            Err(e) => !value@.fits_u64() && e.field == field,
        },
        r == fixed_result(value@, 0, field),
{
    to_fixed_units(value, 0, field)
}

/// Converts a decimal into fixed-point units of `10^-places`: multiplies by
/// `10^places`, then converts as [`to_fixed_u64`] does.
pub fn to_fixed_units(value: &Decimal, places: u8, field: Field) -> (r: Result<
    u64,
    ConversionError,
>)
    ensures
        r == fixed_result(value@, places as nat, field),
{
    proof {
        use_type_invariant(value);
    }
    let scale: i128 = value.scale as i128 - places as i128;
    match fixed_from_parts(value.negative, &value.digits, scale) {
        Some(n) => Ok(n),
        None => Err(ConversionError { field }),
    }
}

} // verus!
