//! Exact decimal amounts: a count of minor units and the number of decimal places.
use vstd::prelude::*;
use vstd::string::StrSliceExecFns;

verus! {

/// The amount `units / 10^scale`, held exactly.
#[derive(Clone, Copy, Debug, PartialEq, Eq, Structural)]
pub struct Money {
    pub units: u128,
    pub scale: u32,
}

/// The largest count of minor units a nightly price may have, so that a total over any
/// number of nights between two calendar days stays exact.
pub const MAX_NIGHTLY_UNITS: u128 = 0xffff_ffff_ffff_ffff;

impl Money {
    /// A nightly price: small enough that any stay's total is held exactly.
    pub open spec fn is_nightly_price(self) -> bool {
        self.units <= MAX_NIGHTLY_UNITS
    }

    /// The price of `nights` nights at this nightly price: the units multiplied, the decimal
    /// places unchanged, so nothing is rounded.
    pub open spec fn times_spec(self, nights: nat) -> Money {
        Money { units: (self.units * nights) as u128, scale: self.scale }
    }

    /// The price of `nights` nights at this nightly price, without rounding.
    pub fn times(self, nights: u32) -> (r: Money)
        requires
            self.is_nightly_price(),
        ensures
            r == self.times_spec(nights as nat),
            r.units == self.units * nights,
    {
        assert(self.units * (nights as u128) <= MAX_NIGHTLY_UNITS * 0xffff_ffffu128) by (nonlinear_arith)
            requires
                self.units <= MAX_NIGHTLY_UNITS,
                nights <= 0xffff_ffffu32,
        ;
        Money { units: self.units * (nights as u128), scale: self.scale }
    }

    /// The amount written in decimal, as `200.00` for 20000 units at scale 2.
    pub fn to_text(&self) -> (r: String)
        ensures
            r@ == decimal_text(self.units as nat, self.scale as nat),
    {
        decimal_string(self.units, self.scale)
    }
}

/// The decimal digit `d`, for `d < 10`.
pub open spec fn digit_char(d: nat) -> char {
    seq!['0', '1', '2', '3', '4', '5', '6', '7', '8', '9'][d as int]
}

/// The decimal digits of `n`, without leading zeros (`0` for zero).
pub open spec fn digits_of(n: nat) -> Seq<char>
    decreases n,
{
    if n < 10 {
        seq![digit_char(n)]
    } else {
        digits_of(n / 10).push(digit_char(n % 10))
    }
}

/// The decimal text of `units / 10^scale`: the digits of `units`, padded with leading zeros to
/// at least `scale + 1` digits, with a point `scale` digits from the right where `scale > 0`
/// (`200.00` for 20000 at scale 2, `0.005` for 5 at scale 3).
pub open spec fn decimal_text(units: nat, scale: nat) -> Seq<char> {
    let d = digits_of(units);
    let padded = if d.len() < scale + 1 {
        Seq::new((scale + 1 - d.len()) as nat, |i: int| '0') + d
    } else {
        d
    };
    let point = padded.len() - scale;
    if scale == 0 {
        padded
    } else {
        padded.subrange(0, point) + seq!['.'] + padded.subrange(point, padded.len() as int)
    }
}

/// Relies on bigdecimal's `BigDecimal::new` and its `Display`, which writes the digits of
/// `units`, prefixed by `0.` and zeros where there are no more than `scale` of them, with a
/// point placed `scale` digits from the right.
#[verifier::external_body]
fn decimal_string(units: u128, scale: u32) -> (r: String)
    ensures
        r@ == decimal_text(units as nat, scale as nat),
{
    bigdecimal::BigDecimal::new(bigdecimal::num_bigint::BigInt::from(units), scale as i64).to_string()
}

/// The quotient `sum / count` in decimal, as bigdecimal writes it: exact where the quotient
/// has a finite decimal expansion that fits in 100 significant digits, else given to 100.
pub uninterp spec fn quotient_text(sum: int, count: int) -> Seq<char>;

/// Relies on bigdecimal's division of two integral `BigDecimal`s and its `Display`; the
/// division panics on a zero divisor, which `requires` rules out.
#[verifier::external_body]
pub(crate) fn quotient_string(sum: u128, count: u64) -> (r: String)
    requires
        count > 0,
    ensures
        r@ == quotient_text(sum as int, count as int),
{
    let n = bigdecimal::BigDecimal::new(bigdecimal::num_bigint::BigInt::from(sum), 0);
    (n / bigdecimal::BigDecimal::from(count)).to_string()
}

/// `10^n`.
pub open spec fn pow10(n: nat) -> int
    decreases n,
{
    if n == 0 {
        1
    } else {
        10 * pow10((n - 1) as nat)
    }
}

proof fn lemma_pow10_grows(a: nat, b: nat)
    requires
        a <= b,
    ensures
        1 <= pow10(a) <= pow10(b),
    decreases b,
{
    if b > 0 {
        if a < b {
            lemma_pow10_grows(a, (b - 1) as nat);
        } else {
            lemma_pow10_grows(0, (b - 1) as nat);
        }
    }
}

/// The nightly price `digits * 10^-exponent`, where it is positive and at most
/// `MAX_NIGHTLY_UNITS` units; a negative exponent is folded into the units.
pub open spec fn price_of(digits: int, exponent: int) -> Option<Money> {
    if digits <= 0 {
        None
    } else if exponent >= 0 {
        if exponent <= u32::MAX && digits <= MAX_NIGHTLY_UNITS {
            Some(Money { units: digits as u128, scale: exponent as u32 })
        } else {
            None
        }
    } else {
        let units = digits * pow10((-exponent) as nat);
        if units <= MAX_NIGHTLY_UNITS {
            Some(Money { units: units as u128, scale: 0 })
        } else {
            None
        }
    }
}

/// The nightly price `digits * 10^-exponent`, if it is one.
pub fn price_from_parts(digits: i128, exponent: i64) -> (r: Option<Money>)
    ensures
        r == price_of(digits as int, exponent as int),
{
    if digits <= 0 {
        return None;
    }
    if exponent >= 0 {
        if exponent <= u32::MAX as i64 && digits as u128 <= MAX_NIGHTLY_UNITS {
            return Some(Money { units: digits as u128, scale: exponent as u32 });
        }
        return None;
    }
    let steps: u64 = (-(exponent as i128)) as u64;
    proof {
        lemma_pow10_grows(0, steps as nat);
        assert(digits * pow10(steps as nat) >= digits) by (nonlinear_arith)
            requires
                digits > 0,
                pow10(steps as nat) >= 1,
        ;
    }
    if digits as u128 > MAX_NIGHTLY_UNITS {
        return None;
    }
    let mut units: u128 = digits as u128;
    let mut k: u64 = 0;
    while k < steps
        invariant
            0 <= k <= steps,
            steps == -exponent,
            digits > 0,
            units == digits * pow10(k as nat),
            units <= MAX_NIGHTLY_UNITS,
        decreases steps - k,
    {
        if units > MAX_NIGHTLY_UNITS / 10 {
            proof {
                lemma_pow10_grows((k + 1) as nat, steps as nat);
                assert(pow10((k + 1) as nat) == 10 * pow10(k as nat));
                assert(digits * pow10(steps as nat) >= digits * pow10((k + 1) as nat))
                    by (nonlinear_arith)
                    requires
                        digits > 0,
                        pow10(steps as nat) >= pow10((k + 1) as nat),
                ;
                assert(digits * pow10((k + 1) as nat) == 10 * units) by (nonlinear_arith)
                    requires
                        units == digits * pow10(k as nat),
                        pow10((k + 1) as nat) == 10 * pow10(k as nat),
                ;
            }
            return None;
        }
        proof {
            assert(pow10((k + 1) as nat) == 10 * pow10(k as nat));
            assert(digits * pow10((k + 1) as nat) == 10 * units) by (nonlinear_arith)
                requires
                    units == digits * pow10(k as nat),
                    pow10((k + 1) as nat) == 10 * pow10(k as nat),
            ;
        }
        units = units * 10;
        k = k + 1;
    }
    Some(Money { units, scale: 0 })
}

/// The text is short enough for bigdecimal to read without overflow: under 2^60 characters,
/// and at most 19 characters (a sign and 18 digits) after any `e` or `E`, so that the
/// exponent and the count of digits after the point fit together in 64 bits.
pub open spec fn readable_decimal(s: Seq<char>) -> bool {
    &&& s.len() < 0x1000_0000_0000_0000
    &&& forall|i: int| 0 <= i < s.len() && (s[i] == 'e' || s[i] == 'E') ==> s.len() - i <= 20
}

/// Whether bigdecimal can read `s` without overflow.
pub fn is_readable_decimal(s: &str) -> (r: bool)
    ensures
        r == readable_decimal(s@),
{
    let n = s.unicode_len();
    if n as u64 >= 0x1000_0000_0000_0000u64 {
        return false;
    }
    let mut i: usize = 0;
    while i < n
        invariant
            n == s@.len(),
            n < 0x1000_0000_0000_0000,
            0 <= i <= n,
            forall|j: int| 0 <= j < i && (s@[j] == 'e' || s@[j] == 'E') ==> s@.len() - j <= 20,
        decreases n - i,
    {
        let c = s.get_char(i);
        if (c == 'e' || c == 'E') && n - i > 20 {
            return false;
        }
        i += 1;
    }
    true
}

/// The digits and the exponent of the decimal number written in `s` (its value is
/// `digits * 10^-exponent`), or `None` where `s` is no decimal number or the digits do not
/// fit in 128 bits.
pub uninterp spec fn decimal_parts(s: Seq<char>) -> Option<(i128, i64)>;

/// Relies on bigdecimal's `BigDecimal::from_str`, the number then split by
/// `into_bigint_and_exponent` and its digits read by `ToPrimitive::to_i128`. `from_str`
/// subtracts the exponent from the count of digits after the point in 64 bits, which
/// overflows on a huge negative exponent: `requires` rules that out.
#[verifier::external_body]
fn parse_decimal(s: &str) -> (r: Option<(i128, i64)>)
    requires
        readable_decimal(s@),
    ensures
        r == decimal_parts(s@),
{
    match <bigdecimal::BigDecimal as std::str::FromStr>::from_str(s) {
        Ok(d) => {
            let (digits, exponent) = d.into_bigint_and_exponent();
            match bigdecimal::ToPrimitive::to_i128(&digits) {
                Some(m) => Some((m, exponent)),
                None => None,
            }
        },
        Err(_) => None,
    }
}

/// The nightly price written in `s`; none where the text is too long to read.
pub open spec fn price_text_value(s: Seq<char>) -> Option<Money> {
    if !readable_decimal(s) {
        None
    } else {
        match decimal_parts(s) {
            Some(parts) => price_of(parts.0 as int, parts.1 as int),
            None => None,
        }
    }
}

/// Reads a nightly price written in decimal, as `100.00`.
pub fn parse_price(s: &str) -> (r: Option<Money>)
    ensures
        r == price_text_value(s@),
{
    if !is_readable_decimal(s) {
        return None;
    }
    match parse_decimal(s) {
        Some((digits, exponent)) => price_from_parts(digits, exponent),
        None => None,
    }
}

} // verus!
