//! Decimal amounts as the order logic reads them: a signed mantissa and a
//! scale, the value being `mantissa / 10^scale`, and the few operations of
//! `rust_decimal` that the logic uses on them.

use vstd::prelude::*;
use crate::chars::digit_char;
use crate::numtext::nat_digits;
use rust_decimal::prelude::ToPrimitive;

verus! {

/// The largest mantissa magnitude of a `rust_decimal::Decimal` (96 bits).
pub const MAX_MANTISSA: i128 = 0xFFFF_FFFF_FFFF_FFFF_FFFF_FFFF;

/// The largest scale of a `rust_decimal::Decimal`.
pub const MAX_SCALE: u32 = 28;

/// `10^n`.
pub open spec fn pow10(n: nat) -> nat
    decreases n,
{
    if n == 0 {
        1
    } else {
        10 * pow10((n - 1) as nat)
    }
}

/// A decimal number `mantissa / 10^scale`, with the parts of a
/// `rust_decimal::Decimal`.
#[derive(Clone, Copy, Debug)]
pub struct DecimalValue {
    pub mantissa: i128,
    pub scale: u32,
}

impl DecimalValue {
    /// The parts are those of a representable `rust_decimal::Decimal`.
    pub open spec fn wf(self) -> bool {
        &&& self.scale <= MAX_SCALE
        &&& -MAX_MANTISSA <= self.mantissa <= MAX_MANTISSA
    }

    /// The value is greater than zero.
    pub open spec fn spec_is_positive(self) -> bool {
        self.mantissa > 0
    }

    /// The value is at least one.
    pub open spec fn spec_at_least_one(self) -> bool {
        self.mantissa >= pow10(self.scale as nat)
    }

    /// The value lies between 0.01 and 0.99, both included.
    pub open spec fn spec_in_cent_range(self) -> bool {
        &&& 100 * self.mantissa >= pow10(self.scale as nat)
        &&& 100 * self.mantissa <= 99 * pow10(self.scale as nat)
    }

    /// The integer part of a non-negative value; `None` for a negative one,
    /// as `ToPrimitive::to_u128` answers for `rust_decimal::Decimal`.
    pub open spec fn spec_to_u128(self) -> Option<u128> {
        if self.mantissa < 0 {
            None
        } else {
            Some((self.mantissa as nat / pow10(self.scale as nat)) as u128)
        }
    }

    /// The whole number `n` (scale 0).
    pub fn from_u64(n: u64) -> (res: DecimalValue)
        ensures
            res.mantissa == n,
            res.scale == 0,
            res.wf(),
    {
        DecimalValue { mantissa: n as i128, scale: 0 }
    }

    /// Whether the value is greater than zero.
    pub fn is_positive(&self) -> (res: bool)
        ensures
            res == self.spec_is_positive(),
    {
        self.mantissa > 0
    }

    /// Whether the value is at least one.
    pub fn at_least_one(&self) -> (res: bool)
        requires
            self.wf(),
        ensures
            res == self.spec_at_least_one(),
    {
        self.mantissa >= pow10_i128(self.scale)
    }

    /// Whether the value lies between 0.01 and 0.99, both included.
    pub fn in_cent_range(&self) -> (res: bool)
        requires
            self.wf(),
        ensures
            res == self.spec_in_cent_range(),
    {
        let p = pow10_i128(self.scale);
        proof {
            lemma_pow10_bound(self.scale as nat);
        }
        let m = self.mantissa * 100;
        m >= p && m <= 99 * p
    }
}

/// `10^n` for `n <= 28`.
pub fn pow10_i128(n: u32) -> (res: i128)
    requires
        n <= MAX_SCALE,
    ensures
        res == pow10(n as nat),
        res > 0,
{
    let mut r: i128 = 1;
    let mut i: u32 = 0;
    while i < n
        invariant
            i <= n <= MAX_SCALE,
            r == pow10(i as nat),
            r <= pow10(i as nat),
            0 < r,
        decreases n - i,
    {
        proof {
            lemma_pow10_bound(i as nat);
        }
        r = r * 10;
        i = i + 1;
    }
    r
}

/// `10^n` grows with `n`.
pub proof fn lemma_pow10_monotone(n: nat, m: nat)
    requires
        n <= m,
    ensures
        0 < pow10(n) <= pow10(m),
    decreases m,
{
    if n < m {
        lemma_pow10_monotone(n, (m - 1) as nat);
    } else if n > 0 {
        lemma_pow10_monotone((n - 1) as nat, (n - 1) as nat);
    }
}

/// `10^n` fits comfortably in an `i128` for the scales of a decimal.
proof fn lemma_pow10_bound(n: nat)
    requires
        n <= 28,
    ensures
        0 < pow10(n) <= 10_000_000_000_000_000_000_000_000_000,
{
    lemma_pow10_monotone(n, 28);
    reveal_with_fuel(pow10, 29);
    assert(pow10(28) == 10_000_000_000_000_000_000_000_000_000);
}

/// The product that `rust_decimal` computes for `a * b`, as mantissa and
/// scale, or `None` where it overflows (there `*` panics).
pub uninterp spec fn decimal_product(a_mantissa: int, a_scale: int, b_mantissa: int, b_scale: int)
    -> Option<(int, int)>;

/// The product of two decimals as `rust_decimal` computes it, where it is
/// defined.
pub open spec fn product_of(a: DecimalValue, b: DecimalValue) -> Option<DecimalValue> {
    match decimal_product(a.mantissa as int, a.scale as int, b.mantissa as int, b.scale as int) {
        Some((m, s)) => Some(DecimalValue { mantissa: m as i128, scale: s as u32 }),
        None => None,
    }
}

/// `rust_decimal::Decimal::checked_mul`, which is `None` exactly where `*`
/// panics. Stated of it: the result is a representable decimal; a zero factor
/// gives zero; when the exact product fits (mantissa within 96 bits and scale
/// at most 28) it is the exact product; the product of two non-negative
/// values is non-negative. How larger products are rounded is only named.
#[verifier::external_body]
pub(crate) fn decimal_mul(a: DecimalValue, b: DecimalValue) -> (res: Option<DecimalValue>)
    requires
        a.wf(),
        b.wf(),
    ensures
        res == product_of(a, b),
        res matches Some(r) ==> r.wf() && decimal_product(
            a.mantissa as int,
            a.scale as int,
            b.mantissa as int,
            b.scale as int,
        ) == Some((r.mantissa as int, r.scale as int)),
        res is None ==> decimal_product(
            a.mantissa as int,
            a.scale as int,
            b.mantissa as int,
            b.scale as int,
        ) is None,
        a.mantissa == 0 || b.mantissa == 0 ==> res == Some(DecimalValue { mantissa: 0, scale: 0 }),
        a.mantissa != 0 && b.mantissa != 0 && a.scale + b.scale <= MAX_SCALE && -MAX_MANTISSA
            <= a.mantissa * b.mantissa <= MAX_MANTISSA ==> res == Some(
            DecimalValue {
                mantissa: (a.mantissa * b.mantissa) as i128,
                scale: (a.scale + b.scale) as u32,
            },
        ),
        a.mantissa >= 0 && b.mantissa >= 0 ==> (res matches Some(r) ==> r.mantissa >= 0),
{
    let x = rust_decimal::Decimal::from_i128_with_scale(a.mantissa, a.scale);
    let y = rust_decimal::Decimal::from_i128_with_scale(b.mantissa, b.scale);
    match x.checked_mul(y) {
        Some(p) => Some(DecimalValue { mantissa: p.mantissa(), scale: p.scale() }),
        None => None,
    }
}

/// `ToPrimitive::to_u128` of `rust_decimal::Decimal`: the integer part of a
/// value that is not negative, `None` for a negative one.
#[verifier::external_body]
pub(crate) fn decimal_to_u128(d: DecimalValue) -> (res: Option<u128>)
    requires
        d.wf(),
    ensures
        res == d.spec_to_u128(),
{
    rust_decimal::Decimal::from_i128_with_scale(d.mantissa, d.scale).to_u128()
}

/// The last `width` digits of `n`, with leading zeros.
pub open spec fn padded_digits(n: nat, width: nat) -> Seq<char>
    decreases width,
{
    if width == 0 {
        seq![]
    } else {
        padded_digits(n / 10, (width - 1) as nat).push(digit_char(n % 10))
    }
}

/// The magnitude of an integer.
pub open spec fn magnitude(m: int) -> nat {
    if m < 0 {
        (-m) as nat
    } else {
        m as nat
    }
}

/// The first `prec` decimals of `m / 10^scale`, as a number.
pub open spec fn first_decimals(m: int, scale: nat, prec: nat) -> nat {
    let f = magnitude(m) % pow10(scale);
    if prec <= scale {
        f / pow10((scale - prec) as nat)
    } else {
        f * pow10((prec - scale) as nat)
    }
}

/// `m / 10^scale` written with `prec` decimals as `rust_decimal` writes a
/// decimal with a precision: a '-' for a negative value, the whole part,
/// and the first `prec` decimals cut (not rounded), without a point for
/// `prec == 0`.
pub open spec fn decimal_text(m: int, scale: nat, prec: nat) -> Seq<char> {
    (if m < 0 {
        seq!['-']
    } else {
        seq![]
    }) + nat_digits(magnitude(m) / pow10(scale)) + (if prec == 0 {
        seq![]
    } else {
        seq!['.'] + padded_digits(first_decimals(m, scale, prec), prec)
    })
}

/// The text that rust_decimal writes with `{:.prec$}` for the decimal
/// `mantissa / 10^scale` divided by `Decimal::from(divisor)`: a function of
/// these four numbers alone.
pub uninterp spec fn decimal_quotient_display(mantissa: int, scale: nat, divisor: nat, prec: nat) -> Seq<char>;

/// Calls rust_decimal: the decimal divided by `Decimal::from(divisor)` (1,
/// 1000 or 1000000) and written with `{:.prec$}`; the text is named
/// `decimal_quotient_display`. rust_decimal writes a precision by cutting
/// the further digits, with a '-' before a negative value. Where the exact
/// quotient has at most 28 decimals it is what rust_decimal computes, and
/// the text is `decimal_text` of it; with more decimals the quotient is
/// first rounded to 28 of them, and the text is only named.
#[verifier::external_body]
pub(crate) fn decimal_quotient_text(d: DecimalValue, divisor: u64, prec: usize) -> (res: String)
    requires
        d.wf(),
        divisor == 1 || divisor == 1000 || divisor == 1_000_000,
        prec <= 2,
    ensures
        res@ == decimal_quotient_display(d.mantissa as int, d.scale as nat, divisor as nat, prec as nat),
        divisor == 1 ==> res@ == decimal_text(d.mantissa as int, d.scale as nat, prec as nat),
        divisor == 1000 && d.scale + 3 <= MAX_SCALE ==> res@ == decimal_text(
            d.mantissa as int,
            (d.scale + 3) as nat,
            prec as nat,
        ),
        divisor == 1_000_000 && d.scale + 6 <= MAX_SCALE ==> res@ == decimal_text(
            d.mantissa as int,
            (d.scale + 6) as nat,
            prec as nat,
        ),
{
    let value = rust_decimal::Decimal::from_i128_with_scale(d.mantissa, d.scale);
    format!("{:.*}", prec, std::ops::Div::div(value, rust_decimal::Decimal::from(divisor)))
}

/// Whether the decimal is at least `10^k`.
fn at_least_pow10(d: DecimalValue, k: u32) -> (res: bool)
    requires
        d.wf(),
        k <= 6,
    ensures
        res == (d.mantissa >= pow10((d.scale + k) as nat)),
{
    proof {
        lemma_pow10_bound(d.scale as nat);
        lemma_pow10_add(d.scale as nat, k as nat);
        lemma_pow10_monotone(k as nat, 6);
        reveal_with_fuel(pow10, 7);
        assert(pow10(6) == 1_000_000);
        assert(pow10(d.scale as nat) * pow10(k as nat) <= 10_000_000_000_000_000_000_000_000_000 * 1_000_000) by (nonlinear_arith)
            requires
                0 < pow10(d.scale as nat) <= 10_000_000_000_000_000_000_000_000_000,
                0 < pow10(k as nat) <= 1_000_000,
        ;
    }
    let scale_pow = pow10_i128(d.scale);
    let k_pow = pow10_i128(k);
    d.mantissa >= scale_pow * k_pow
}

pub proof fn lemma_pow10_add(a: nat, b: nat)
    ensures
        pow10(a + b) == pow10(a) * pow10(b),
    decreases b,
{
    if b > 0 {
        lemma_pow10_add(a, (b - 1) as nat);
        assert(pow10(a + b) == 10 * pow10((a + b - 1) as nat));
        assert(pow10(a) * pow10(b) == pow10(a) * (10 * pow10((b - 1) as nat)));
        assert(pow10(a) * (10 * pow10((b - 1) as nat)) == 10 * (pow10(a) * pow10((b - 1) as nat))) by (nonlinear_arith);
    } else {
        assert(a + b == a);
        assert(pow10(0) == 1);
    }
}

/// A volume or liquidity as the market tables write it: millions with one
/// decimal and "M", thousands with one decimal and "K", smaller values with
/// two decimals (the further digits cut).
pub open spec fn decimal_short_text(d: DecimalValue) -> Seq<char> {
    if d.mantissa >= pow10((d.scale + 6) as nat) {
        decimal_text(d.mantissa as int, (d.scale + 6) as nat, 1) + seq!['M']
    } else if d.mantissa >= pow10((d.scale + 3) as nat) {
        decimal_text(d.mantissa as int, (d.scale + 3) as nat, 1) + seq!['K']
    } else {
        decimal_text(d.mantissa as int, d.scale as nat, 2)
    }
}

/// Writes a volume or liquidity for the market tables. The quotients are
/// always exact: a decimal of a million or more has at most 22 decimals,
/// and one of a thousand or more at most 25, since its mantissa has 96 bits.
pub fn format_decimal(value: DecimalValue) -> (res: String)
    requires
        value.wf(),
    ensures
        res@ == decimal_short_text(value),
{
    proof {
        lemma_pow10_monotone((value.scale + 3) as nat, (value.scale + 6) as nat);
        lemma_big_values_have_few_decimals(value);
    }
    if at_least_pow10(value, 6) {
        let mut t = decimal_quotient_text(value, 1_000_000, 1);
        t.append("M");
        proof {
            reveal_strlit("M");
        }
        t
    } else if at_least_pow10(value, 3) {
        let mut t = decimal_quotient_text(value, 1000, 1);
        t.append("K");
        proof {
            reveal_strlit("K");
        }
        t
    } else {
        decimal_quotient_text(value, 1, 2)
    }
}

/// A decimal of at least 10^6 has at most 22 decimals, and one of at least
/// 10^3 at most 25: 10^29 exceeds every 96-bit mantissa.
proof fn lemma_big_values_have_few_decimals(d: DecimalValue)
    requires
        d.wf(),
    ensures
        d.mantissa >= pow10((d.scale + 6) as nat) ==> d.scale <= 22,
        d.mantissa >= pow10((d.scale + 3) as nat) ==> d.scale <= 25,
{
    reveal_with_fuel(pow10, 30);
    assert(pow10(29) == 100_000_000_000_000_000_000_000_000_000);
    if d.scale > 22 {
        lemma_pow10_monotone(29, (d.scale + 6) as nat);
    }
    if d.scale > 25 {
        lemma_pow10_monotone(29, (d.scale + 3) as nat);
    }
}

/// An optional decimal as `format_decimal` writes it, or "-".
pub fn format_optional_decimal(value: &Option<DecimalValue>) -> (res: String)
    requires
        *value matches Some(v) ==> v.wf(),
    ensures
        *value matches Some(v) ==> res@ == decimal_short_text(v),
        value is None ==> res@ == "-"@,
{
    match value {
        Some(v) => format_decimal(*v),
        None => crate::chars::string_of("-"),
    }
}

/// An optional price in dollars with two decimals (cut), or "-".
pub fn format_optional_price(value: &Option<DecimalValue>) -> (res: String)
    requires
        *value matches Some(v) ==> v.wf(),
    ensures
        *value matches Some(v) ==> res@ == seq!['$'] + decimal_text(v.mantissa as int, v.scale as nat, 2),
        value is None ==> res@ == "-"@,
{
    match value {
        Some(v) => {
            let mut t = crate::chars::string_of("$");
            let d = decimal_quotient_text(*v, 1, 2);
            t.append(d.as_str());
            proof {
                reveal_strlit("$");
            }
            t
        },
        None => crate::chars::string_of("-"),
    }
}

/// The decimal that rust_decimal reads from text with `str::parse`, as
/// mantissa and scale; `None` where it reads none.
pub uninterp spec fn decimal_from_text(s: Seq<char>) -> Option<(i128, u32)>;

/// `str::parse::<rust_decimal::Decimal>`: the decimal that the text writes.
/// Stated of it: a decimal that it reads is representable. Which texts it
/// reads, and how it rounds long ones, is only named.
#[verifier::external_body]
fn parse_decimal(s: &str) -> (res: Option<DecimalValue>)
    ensures
        match res {
            Some(d) => decimal_from_text(s@) == Some((d.mantissa, d.scale)) && d.wf(),
            None => decimal_from_text(s@) is None,
        },
{
    match s.parse::<rust_decimal::Decimal>() {
        Ok(d) => Some(DecimalValue { mantissa: d.mantissa(), scale: d.scale() }),
        Err(_) => None,
    }
}

/// A market's volume: its formatted volume read as a decimal, where it has
/// one and it reads.
pub fn display_volume(volume_formatted: &Option<String>) -> (res: Option<DecimalValue>)
    ensures
        match volume_formatted {
            Some(t) => match res {
                Some(d) => decimal_from_text(t@) == Some((d.mantissa, d.scale)) && d.wf(),
                None => decimal_from_text(t@) is None,
            },
            None => res is None,
        },
{
    match volume_formatted {
        Some(t) => parse_decimal(t.as_str()),
        None => None,
    }
}

/// A market's liquidity, read as a decimal and written as `format_decimal`
/// writes it; `None` where there is none or it does not read.
pub fn liquidity_text(liquidity: &Option<String>) -> (res: Option<String>)
    ensures
        match liquidity {
            Some(t) => match decimal_from_text(t@) {
                Some((m, sc)) => res matches Some(r) && r@ == decimal_short_text(
                    DecimalValue { mantissa: m, scale: sc },
                ),
                None => res is None,
            },
            None => res is None,
        },
{
    match liquidity {
        Some(t) => match parse_decimal(t.as_str()) {
            Some(d) => Some(format_decimal(d)),
            None => None,
        },
        None => None,
    }
}

/// An order size in millionths of a share, written in shares with two
/// decimals (cut): rust_decimal's quotient text, which is `decimal_text` of
/// the exact quotient up to 22 decimals (with more, rust_decimal rounds the
/// quotient first).
pub fn format_size(raw: DecimalValue) -> (res: String)
    requires
        raw.wf(),
    ensures
        res@ == decimal_quotient_display(raw.mantissa as int, raw.scale as nat, 1_000_000, 2),
        raw.scale <= 22 ==> res@ == decimal_text(raw.mantissa as int, (raw.scale + 6) as nat, 2),
{
    decimal_quotient_text(raw, 1_000_000, 2)
}

} // verus!
