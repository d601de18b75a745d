//! USDC amounts as the API sends them, in millionths of a dollar, written
//! with two decimals (the further digits are cut, not rounded).

use vstd::prelude::*;
use crate::chars::{digit_char, digit_to_char, string_from_chars, string_of};
use crate::decimal::{
    decimal_quotient_text,
    decimal_text,
    first_decimals,
    magnitude,
    padded_digits,
    pow10,
    DecimalValue,
};
use crate::numtext::{
    i128_to_string,
    int_text,
    law_int_text_reads_back,
    nat_digits,
    parse_i64,
    parse_int_spec,
    parse_u128,
    u128_to_string,
};

verus! {

/// Millionths of a dollar in a dollar.
pub const USDC_SCALE: u64 = 1_000_000;

/// Integer division that rounds toward zero, as Rust's `/` does.
pub open spec fn trunc_div(v: int, d: nat) -> int {
    if v >= 0 {
        v / (d as int)
    } else {
        -((-v) / (d as int))
    }
}

/// The magnitude of an integer.
pub open spec fn abs(v: int) -> nat {
    if v >= 0 {
        v as nat
    } else {
        (-v) as nat
    }
}

/// A number below 100 with at least two digits, as `{:02}` writes it.
pub open spec fn two_digits(n: nat) -> Seq<char> {
    if n < 10 {
        seq!['0', digit_char(n)]
    } else {
        nat_digits(n)
    }
}

/// The cents of an amount in millionths: its last six digits cut to two.
pub open spec fn cents_of(v: int) -> nat {
    (abs(v) % 1_000_000) / 10_000
}

/// An amount in millionths as "whole.cc", the whole part rounded toward zero.
pub open spec fn usdc_text(v: int) -> Seq<char> {
    int_text(trunc_div(v, 1_000_000)) + seq!['.'] + two_digits(cents_of(v))
}

/// An amount in millionths as "whole.cc", where a negative amount of less
/// than a dollar keeps its sign ("-0.50").
pub open spec fn signed_usdc_text(v: int) -> Seq<char> {
    if v < 0 && trunc_div(v, 1_000_000) == 0 {
        seq!['-', '0', '.'] + two_digits(cents_of(v))
    } else {
        usdc_text(v)
    }
}

/// A raw amount (millionths) as the portfolio tables write it: two
/// decimals, keeping the sign of a loss of less than one, or the raw text
/// where it is not an `i64`.
pub open spec fn raw_usdc_text(raw: Seq<char>) -> Seq<char> {
    match parse_int_spec(raw, true, i64::MIN as int, i64::MAX as int) {
        Some(v) => signed_usdc_text(v),
        None => raw,
    }
}

/// A raw amount (millionths) as the events table writes it: two decimals,
/// the whole part rounded toward zero, or the raw text where it is not an
/// `i64`.
pub open spec fn raw_plain_usdc_text(raw: Seq<char>) -> Seq<char> {
    match parse_int_spec(raw, true, i64::MIN as int, i64::MAX as int) {
        Some(v) => usdc_text(v),
        None => raw,
    }
}

/// The text of `n < 100` with at least two digits.
fn two_digit_text(n: u64) -> (res: Vec<char>)
    requires
        n < 100,
    ensures
        res@ == two_digits(n as nat),
{
    let mut v: Vec<char> = Vec::new();
    if n < 10 {
        v.push('0');
        v.push(digit_to_char(n as u8));
    } else {
        v.push(digit_to_char((n / 10) as u8));
        v.push(digit_to_char((n % 10) as u8));
        proof {
            assert(nat_digits((n / 10) as nat) == seq![digit_char((n / 10) as nat)]);
        }
    }
    assert(v@ =~= two_digits(n as nat));
    v
}

/// An amount in millionths with two decimals; `negative_cents` keeps the
/// sign of an amount of less than a dollar.
pub(crate) fn amount_text(v: i64, keep_small_sign: bool) -> (res: String)
    ensures
        !keep_small_sign ==> res@ == usdc_text(v as int),
        keep_small_sign ==> res@ == signed_usdc_text(v as int),
{
    let m: u64 = if v < 0 {
        (-(v as i128)) as u64
    } else {
        v as u64
    };
    let whole_m: u64 = m / 1_000_000;
    let frac: u64 = m % 1_000_000;
    let whole: i128 = if v < 0 {
        -(whole_m as i128)
    } else {
        whole_m as i128
    };
    assert(whole == trunc_div(v as int, 1_000_000));
    let cents = two_digit_text(frac / 10_000);
    let mut out: Vec<char> = Vec::new();
    if keep_small_sign && v < 0 && whole == 0 {
        out.push('-');
        out.push('0');
    } else {
        let w = crate::chars::chars_of(i128_to_string(whole).as_str());
        let mut i: usize = 0;
        while i < w.len()
            invariant
                0 <= i <= w.len(),
                out@ == w@.subrange(0, i as int),
            decreases w.len() - i,
        {
            out.push(w[i]);
            i = i + 1;
            assert(out@ =~= w@.subrange(0, i as int));
        }
        assert(w@.subrange(0, w@.len() as int) =~= w@);
    }
    out.push('.');
    let mut j: usize = 0;
    let ghost before = out@;
    while j < cents.len()
        invariant
            0 <= j <= cents.len(),
            out@ == before + cents@.subrange(0, j as int),
        decreases cents.len() - j,
    {
        out.push(cents[j]);
        j = j + 1;
        assert(out@ =~= before + cents@.subrange(0, j as int));
    }
    assert(cents@.subrange(0, cents@.len() as int) =~= cents@);
    proof {
        if keep_small_sign && v < 0 && whole == 0 {
            assert(out@ =~= signed_usdc_text(v as int));
        } else {
            assert(out@ =~= usdc_text(v as int));
        }
    }
    string_from_chars(out.as_slice())
}

/// The text of a raw amount for the events table: "whole.cc", or the raw
/// text where it is not an `i64`.
pub fn format_raw_usdc(raw: &str) -> (res: String)
    ensures
        parse_int_spec(raw@, true, i64::MIN as int, i64::MAX as int) matches Some(v) ==> res@
            == usdc_text(v),
        parse_int_spec(raw@, true, i64::MIN as int, i64::MAX as int) is None ==> res@ == raw@,
        res@ == raw_plain_usdc_text(raw@),
{
    match parse_i64(raw) {
        Some(v) => amount_text(v, false),
        None => string_of(raw),
    }
}

/// The text of a raw amount for the portfolio tables: "whole.cc", keeping
/// the sign of a loss of less than a dollar, or the raw text where it is not
/// an `i64`.
pub fn raw_to_usdc(raw: &str) -> (res: String)
    ensures
        parse_int_spec(raw@, true, i64::MIN as int, i64::MAX as int) matches Some(v) ==> res@
            == signed_usdc_text(v),
        parse_int_spec(raw@, true, i64::MIN as int, i64::MAX as int) is None ==> res@ == raw@,
        res@ == raw_usdc_text(raw@),
{
    match parse_i64(raw) {
        Some(v) => amount_text(v, true),
        None => string_of(raw),
    }
}

/// Two digits of a number below 100, as `padded_digits` writes them, are
/// those of `two_digits`.
proof fn lemma_two_digits_padded(c: nat)
    requires
        c < 100,
    ensures
        padded_digits(c, 2) == two_digits(c),
{
    reveal_with_fuel(padded_digits, 3);
    reveal_with_fuel(nat_digits, 2);
    assert(digit_char(0) == '0');
    if c < 10 {
        assert(c / 10 == 0);
        assert(padded_digits(c, 2) =~= seq![digit_char(0), digit_char(c % 10)]);
    } else {
        assert((c / 10) % 10 == c / 10);
        assert(padded_digits(c, 2) =~= seq![digit_char(c / 10), digit_char(c % 10)]);
        assert(nat_digits(c / 10) == seq![digit_char(c / 10)]);
    }
}

/// An amount in millionths written as rust_decimal writes its quotient by a
/// million with two decimals is its "whole.cc" text that keeps the sign of
/// a loss of less than one.
proof fn lemma_millionths_decimal_text(v: int)
    ensures
        decimal_text(v, 6, 2) == signed_usdc_text(v),
{
    reveal_with_fuel(pow10, 7);
    assert(pow10(6) == 1_000_000);
    assert(pow10(4) == 10_000);
    assert(magnitude(v) == abs(v));
    assert(first_decimals(v, 6, 2) == cents_of(v));
    lemma_two_digits_padded(cents_of(v));
    reveal_with_fuel(nat_digits, 1);
    assert(nat_digits(0) == seq![digit_char(0)]);
    assert(digit_char(0) == '0');
    if v < 0 {
        if trunc_div(v, 1_000_000) == 0 {
            assert(abs(v) / 1_000_000 == 0);
            assert(decimal_text(v, 6, 2) =~= signed_usdc_text(v));
        } else {
            assert(decimal_text(v, 6, 2) =~= signed_usdc_text(v));
        }
    } else {
        assert(decimal_text(v, 6, 2) =~= signed_usdc_text(v));
    }
}

/// A raw share amount (millionths of a share) with two decimals, or the raw
/// text where it is not an `i64`.
pub fn raw_to_shares(raw: &str) -> (res: String)
    ensures
        parse_int_spec(raw@, true, i64::MIN as int, i64::MAX as int) matches Some(v) ==> res@
            == signed_usdc_text(v),
        parse_int_spec(raw@, true, i64::MIN as int, i64::MAX as int) is None ==> res@ == raw@,
        res@ == raw_usdc_text(raw@),
{
    match parse_i64(raw) {
        Some(v) => {
            proof {
                lemma_millionths_decimal_text(v as int);
            }
            decimal_quotient_text(DecimalValue { mantissa: v as i128, scale: 0 }, 1_000_000, 2)
        },
        None => string_of(raw),
    }
}

/// The allowance line of the allowance summary: "Unlimited" above a billion
/// dollars, else "whole.cc USDC"; the raw text where it is not a `u128`.
pub open spec fn allowance_text(raw: Seq<char>) -> Seq<char> {
    match parse_int_spec(raw, false, 0, u128::MAX as int) {
        Some(v) => if v / 1_000_000 > 1_000_000_000 {
            "Unlimited"@
        } else {
            nat_digits((v / 1_000_000) as nat) + seq!['.'] + two_digits(((v % 1_000_000) / 10_000) as nat)
                + " USDC"@
        },
        None => raw,
    }
}

/// The allowance line of the allowance summary.
pub fn allowance_display(raw: &str) -> (res: String)
    ensures
        res@ == allowance_text(raw@),
{
    match parse_u128(raw) {
        Some(v) => {
            let whole = v / 1_000_000;
            let frac = v % 1_000_000;
            if whole > 1_000_000_000 {
                string_of("Unlimited")
            } else {
                let mut out = u128_to_string(whole);
                out.append(".");
                let cents = two_digit_text((frac / 10_000) as u64);
                let c = string_from_chars(cents.as_slice());
                out.append(c.as_str());
                out.append(" USDC");
                proof {
                    reveal_strlit(".");
                }
                assert(out@ =~= allowance_text(raw@));
                out
            }
        },
        None => string_of(raw),
    }
}

/// Writing an amount in millionths as decimal text and reading that text as
/// a raw amount gives the same USDC text as writing the amount directly.
pub proof fn law_usdc_text_of_written_amount(v: int)
    requires
        i64::MIN <= v <= i64::MAX,
    ensures
        raw_usdc_text(int_text(v)) == signed_usdc_text(v),
{
    law_int_text_reads_back(v, i64::MIN as int, i64::MAX as int);
}

} // verus!
