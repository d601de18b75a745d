//! Decimal text of integers: writing them as `Display` does and reading them
//! as `str::parse` does.

use vstd::prelude::*;
use crate::chars::{chars_of, char_digit, digit_char, digit_to_char, digit_value, is_digit, string_from_chars};

verus! {

/// The decimal digits of `n`, without leading zeros ("0" for zero).
pub open spec fn nat_digits(n: nat) -> Seq<char>
    decreases n,
{
    if n < 10 {
        seq![digit_char(n)]
    } else {
        nat_digits(n / 10).push(digit_char(n % 10))
    }
}

/// The decimal text of an integer: its digits, after a '-' when negative.
pub open spec fn int_text(i: int) -> Seq<char> {
    if i < 0 {
        seq!['-'] + nat_digits((-i) as nat)
    } else {
        nat_digits(i as nat)
    }
}

/// Whether every character of `s` is an ASCII digit.
pub open spec fn all_digits(s: Seq<char>) -> bool {
    forall|i: int| 0 <= i < s.len() ==> #[trigger] is_digit(s[i])
}

/// The number written by the digit string `s` (0 for the empty string).
pub open spec fn digits_value(s: Seq<char>) -> nat
    decreases s.len(),
{
    if s.len() == 0 {
        0
    } else {
        digits_value(s.drop_last()) * 10 + digit_value(s.last())
    }
}

/// The integer that `str::parse` reads for an integer type, before its range
/// check: an optional sign (a '-' only for a `signed` type) and then one or
/// more ASCII digits, with nothing before, between or after them.
pub open spec fn int_literal_value(s: Seq<char>, signed: bool) -> Option<int> {
    if s.len() == 0 {
        None
    } else if (s[0] == '+' || s[0] == '-') && s.len() == 1 {
        None
    } else if s[0] == '+' {
        if all_digits(s.drop_first()) {
            Some(digits_value(s.drop_first()) as int)
        } else {
            None
        }
    } else if s[0] == '-' && signed {
        if all_digits(s.drop_first()) {
            Some(-(digits_value(s.drop_first()) as int))
        } else {
            None
        }
    } else if all_digits(s) {
        Some(digits_value(s) as int)
    } else {
        None
    }
}

/// What `str::parse` gives for an integer type whose values are `lo..=hi`.
pub open spec fn parse_int_spec(s: Seq<char>, signed: bool, lo: int, hi: int) -> Option<int> {
    match int_literal_value(s, signed) {
        Some(v) => if lo <= v && v <= hi {
            Some(v)
        } else {
            None
        },
        None => None,
    }
}

proof fn lemma_digits_value_push(s: Seq<char>, c: char)
    ensures
        digits_value(s.push(c)) == digits_value(s) * 10 + digit_value(c),
{
    assert(s.push(c).drop_last() =~= s);
}

/// A digit string is worth at least as much as any of its prefixes.
proof fn lemma_digits_value_prefix(s: Seq<char>, k: int)
    requires
        0 <= k <= s.len(),
    ensures
        digits_value(s.take(k)) <= digits_value(s),
    decreases s.len() - k,
{
    if k < s.len() {
        lemma_digits_value_prefix(s, k + 1);
        assert(s.take(k + 1) =~= s.take(k).push(s[k]));
        lemma_digits_value_push(s.take(k), s[k]);
    }
    assert(k == s.len() ==> s.take(k) =~= s);
}

proof fn lemma_digit_char(d: nat)
    requires
        d < 10,
    ensures
        is_digit(digit_char(d)),
        digit_value(digit_char(d)) == d,
{
}

/// The digits written for a number are digits, at least one, and worth the
/// number.
proof fn lemma_nat_digits_read(n: nat)
    ensures
        all_digits(nat_digits(n)),
        nat_digits(n).len() >= 1,
        digits_value(nat_digits(n)) == n,
    decreases n,
{
    lemma_digit_char(n % 10);
    if n >= 10 {
        lemma_nat_digits_read(n / 10);
        let s = nat_digits(n / 10);
        lemma_digits_value_push(s, digit_char(n % 10));
        assert((n / 10) * 10 + n % 10 == n) by (nonlinear_arith);
        assert forall|i: int| 0 <= i < s.push(digit_char(n % 10)).len() implies #[trigger] is_digit(
            s.push(digit_char(n % 10))[i],
        ) by {
            if i < s.len() {
                assert(is_digit(s[i]));
            }
        }
    } else {
        assert(nat_digits(n) == seq![digit_char(n)]);
        assert(seq![digit_char(n)].drop_last() =~= Seq::<char>::empty());
        reveal_with_fuel(digits_value, 2);
    }
}

/// Reading back the text written for an integer gives the integer: the
/// decimal text of `v` (with a '-' when negative), read as a signed integer
/// type whose range holds `v`, is `v`.
pub proof fn law_int_text_reads_back(v: int, lo: int, hi: int)
    requires
        lo <= v <= hi,
    ensures
        parse_int_spec(int_text(v), true, lo, hi) == Some(v),
{
    if v < 0 {
        let d = nat_digits((-v) as nat);
        lemma_nat_digits_read((-v) as nat);
        assert((seq!['-'] + d).drop_first() =~= d);
        assert((seq!['-'] + d)[0] == '-');
    } else {
        let d = nat_digits(v as nat);
        lemma_nat_digits_read(v as nat);
        assert(is_digit(d[0]));
    }
}

/// Reading back the digits written for a number gives the number: the
/// decimal digits of `n`, read as an unsigned integer type whose range holds
/// `n`, are `n`.
pub proof fn law_nat_digits_read_back(n: nat, hi: int)
    requires
        n <= hi,
    ensures
        parse_int_spec(nat_digits(n), false, 0, hi) == Some(n as int),
{
    lemma_nat_digits_read(n);
    assert(is_digit(nat_digits(n)[0]));
}

fn push_digits(n: u128, out: &mut Vec<char>)
    ensures
        final(out)@ == old(out)@ + nat_digits(n as nat),
    decreases n,
{
    if n >= 10 {
        push_digits(n / 10, out);
    }
    let d = (n % 10) as u8;
    out.push(digit_to_char(d));
    proof {
        if n < 10 {
            assert(n % 10 == n);
        }
        assert(out@ =~= old(out)@ + nat_digits(n as nat));
    }
}

/// The decimal text of `n`, as `Display` writes it.
pub fn u128_to_string(n: u128) -> (res: String)
    ensures
        res@ == nat_digits(n as nat),
{
    let mut v: Vec<char> = Vec::new();
    push_digits(n, &mut v);
    assert(v@ =~= nat_digits(n as nat));
    string_from_chars(v.as_slice())
}

/// The decimal text of `i`, as `Display` writes it.
pub fn i128_to_string(i: i128) -> (res: String)
    requires
        i > i128::MIN,
    ensures
        res@ == int_text(i as int),
{
    let mut v: Vec<char> = Vec::new();
    if i < 0 {
        v.push('-');
        push_digits((-i) as u128, &mut v);
        assert(v@ =~= seq!['-'] + nat_digits((-i) as nat));
    } else {
        push_digits(i as u128, &mut v);
        assert(v@ =~= nat_digits(i as nat));
    }
    string_from_chars(v.as_slice())
}

/// Reads the digits `cs[start..]` as a number no larger than `limit`.
fn read_digits(cs: &Vec<char>, start: usize, limit: u128) -> (res: Option<u128>)
    requires
        start <= cs.len(),
    ensures
        res is Some <==> all_digits(cs@.skip(start as int)) && digits_value(cs@.skip(start as int))
            <= limit,
        res matches Some(v) ==> v == digits_value(cs@.skip(start as int)),
{
    let ghost t = cs@.skip(start as int);
    let mut acc: u128 = 0;
    let mut i: usize = start;
    assert(t.take(0) =~= Seq::<char>::empty());
    while i < cs.len()
        invariant
            start <= i <= cs.len(),
            t == cs@.skip(start as int),
            all_digits(t.take(i - start)),
            acc == digits_value(t.take(i - start)),
            acc <= limit,
        decreases cs.len() - i,
    {
        let c = cs[i];
        let ghost k = i - start;
        assert(t[k] == c);
        match char_digit(c) {
            None => {
                assert(!is_digit(t[k]));
                return None;
            },
            Some(d) => {
                assert(t.take(k + 1) =~= t.take(k).push(c));
                proof {
                    lemma_digits_value_push(t.take(k), c);
                }
                if d as u128 > limit || acc > (limit - d as u128) / 10 {
                    proof {
                        assert(acc * 10 + d > limit) by (nonlinear_arith)
                            requires
                                d > limit || acc > (limit - d) / 10,
                        ;
                        if all_digits(t) {
                            lemma_digits_value_prefix(t, k + 1);
                        }
                    }
                    return None;
                }
                assert(acc * 10 + d <= limit) by (nonlinear_arith)
                    requires
                        d <= limit,
                        acc <= (limit - d) / 10,
                ;
                acc = acc * 10 + d as u128;
                i = i + 1;
                assert(all_digits(t.take(i - start))) by {
                    assert forall|j: int| 0 <= j < t.take(i - start).len() implies #[trigger] is_digit(
                        t.take(i - start)[j],
                    ) by {
                        if j < k {
                            assert(t.take(i - start)[j] == t.take(k)[j]);
                        }
                    }
                }
            },
        }
    }
    assert(t.take(i - start) =~= t);
    Some(acc)
}

/// Reads `s` as `str::parse` reads an integer of type `u128`.
pub fn parse_u128(s: &str) -> (res: Option<u128>)
    ensures
        res matches Some(v) ==> parse_int_spec(s@, false, 0, u128::MAX as int) == Some(v as int),
        res is None ==> parse_int_spec(s@, false, 0, u128::MAX as int) is None,
{
    let cs = chars_of(s);
    if cs.len() == 0 {
        return None;
    }
    if (cs[0] == '+' || cs[0] == '-') && cs.len() == 1 {
        return None;
    }
    let start: usize = if cs[0] == '+' {
        1
    } else {
        0
    };
    assert(start == 0 ==> cs@.skip(0) =~= cs@);
    assert(start == 1 ==> cs@.skip(1) =~= cs@.drop_first());
    read_digits(&cs, start, u128::MAX)
}

/// Reads `s` as `str::parse` reads an integer of type `u32`.
pub fn parse_u32(s: &str) -> (res: Option<u32>)
    ensures
        res matches Some(v) ==> parse_int_spec(s@, false, 0, u32::MAX as int) == Some(v as int),
        res is None ==> parse_int_spec(s@, false, 0, u32::MAX as int) is None,
{
    let cs = chars_of(s);
    if cs.len() == 0 {
        return None;
    }
    if (cs[0] == '+' || cs[0] == '-') && cs.len() == 1 {
        return None;
    }
    let start: usize = if cs[0] == '+' {
        1
    } else {
        0
    };
    assert(start == 0 ==> cs@.skip(0) =~= cs@);
    assert(start == 1 ==> cs@.skip(1) =~= cs@.drop_first());
    match read_digits(&cs, start, u32::MAX as u128) {
        Some(v) => Some(v as u32),
        None => None,
    }
}

/// Reads `s` as `str::parse` reads an integer of type `i64`.
pub fn parse_i64(s: &str) -> (res: Option<i64>)
    ensures
        res matches Some(v) ==> parse_int_spec(s@, true, i64::MIN as int, i64::MAX as int) == Some(
            v as int,
        ),
        res is None ==> parse_int_spec(s@, true, i64::MIN as int, i64::MAX as int) is None,
{
    let cs = chars_of(s);
    if cs.len() == 0 {
        return None;
    }
    if (cs[0] == '+' || cs[0] == '-') && cs.len() == 1 {
        return None;
    }
    if cs[0] == '-' {
        assert(cs@.skip(1) =~= cs@.drop_first());
        match read_digits(&cs, 1, 0x8000_0000_0000_0000u128) {
            Some(m) => {
                let v: i128 = -(m as i128);
                Some(v as i64)
            },
            None => None,
        }
    } else {
        let start: usize = if cs[0] == '+' {
            1
        } else {
            0
        };
        assert(start == 0 ==> cs@.skip(0) =~= cs@);
        assert(start == 1 ==> cs@.skip(1) =~= cs@.drop_first());
        match read_digits(&cs, start, i64::MAX as u128) {
            Some(v) => Some(v as i64),
            None => None,
        }
    }
}

} // verus!
