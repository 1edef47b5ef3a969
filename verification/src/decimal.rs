//! Decimal text: the value of a digit string, and the digit string of an
//! integer. The tokenizer produces constant lexemes as digit strings, the
//! syntax builder reads their values, and the printer and the emitter render
//! integers back to text.

use vstd::prelude::*;

use crate::chars::is_digit_char;
use crate::chars::is_digit;

verus! {

/// Every character of `s` is a decimal digit.
pub open spec fn is_digit_seq(s: Seq<char>) -> bool {
    forall|i: int| 0 <= i < s.len() ==> is_digit_char(#[trigger] s[i])
}

/// The numeric value of a digit character.
pub open spec fn digit_value(c: char) -> int {
    c as u32 - '0' as u32
}

/// The digit character of a value below ten.
pub open spec fn digit_char(d: int) -> char {
    if d == 0 { '0' }
    else if d == 1 { '1' }
    else if d == 2 { '2' }
    else if d == 3 { '3' }
    else if d == 4 { '4' }
    else if d == 5 { '5' }
    else if d == 6 { '6' }
    else if d == 7 { '7' }
    else if d == 8 { '8' }
    else { '9' }
}

/// The value of a digit string read in base ten. Leading zeros are allowed
/// and do not change the value.
pub open spec fn dec_value(s: Seq<char>) -> int
    decreases s.len(),
{
    if s.len() == 0 {
        0
    } else {
        dec_value(s.drop_last()) * 10 + digit_value(s.last())
    }
}

/// The decimal digit string of a nonnegative value, without sign and without
/// leading zeros (a lone zero for zero).
pub open spec fn dec_digits(n: int) -> Seq<char>
    decreases n,
{
    if n < 10 {
        seq![digit_char(n)]
    } else {
        dec_digits(n / 10).push(digit_char(n % 10))
    }
}

/// The decimal rendering of an integer: a minus sign before the digits of the
/// magnitude when the value is negative.
pub open spec fn int_digits(n: int) -> Seq<char> {
    if n < 0 {
        seq!['-'] + dec_digits(-n)
    } else {
        dec_digits(n)
    }
}

/// The value of a digit string is nonnegative.
pub proof fn lemma_dec_value_nonneg(s: Seq<char>)
    requires
        is_digit_seq(s),
    ensures
        dec_value(s) >= 0,
    decreases s.len(),
{
    if s.len() > 0 {
        assert(is_digit_seq(s.drop_last()));
        lemma_dec_value_nonneg(s.drop_last());
    }
}

fn digit_str(d: u32) -> (r: &'static str)
    requires
        d < 10,
    ensures
        r@ == seq![digit_char(d as int)],
{
    proof {
        reveal_strlit("0");
        reveal_strlit("1");
        reveal_strlit("2");
        reveal_strlit("3");
        reveal_strlit("4");
        reveal_strlit("5");
        reveal_strlit("6");
        reveal_strlit("7");
        reveal_strlit("8");
        reveal_strlit("9");
    }
    let r = if d == 0 { "0" }
    else if d == 1 { "1" }
    else if d == 2 { "2" }
    else if d == 3 { "3" }
    else if d == 4 { "4" }
    else if d == 5 { "5" }
    else if d == 6 { "6" }
    else if d == 7 { "7" }
    else if d == 8 { "8" }
    else { "9" };
    proof {
        assert(r@ =~= seq![digit_char(d as int)]);
    }
    r
}

/// Appends the decimal digits of `v` to `out`.
pub fn push_decimal_u32(out: &mut String, v: u32)
    ensures
        final(out)@ == old(out)@ + dec_digits(v as int),
    decreases v,
{
    if v >= 10 {
        push_decimal_u32(out, v / 10);
    }
    out.append(digit_str(v % 10));
    proof {
        if v >= 10 {
            assert(out@ =~= old(out)@ + dec_digits(v as int));
        } else {
            assert(v % 10 == v as int);
            assert(out@ =~= old(out)@ + dec_digits(v as int));
        }
    }
}

/// Appends the decimal rendering of `v` to `out`, a minus sign first when it
/// is negative.
pub fn push_decimal_i32(out: &mut String, v: i32)
    ensures
        final(out)@ == old(out)@ + int_digits(v as int),
{
    if v < 0 {
        out.append("-");
        let m: u32 = (-(v as i64)) as u32;
        proof {
            reveal_strlit("-");
            assert(m as int == -(v as int));
        }
        push_decimal_u32(out, m);
        proof {
            assert("-"@ =~= seq!['-']);
            assert(out@ =~= old(out)@ + int_digits(v as int));
        }
    } else {
        push_decimal_u32(out, v as u32);
    }
}

/// Reads a digit string as a decimal value. Returns the value when every
/// character of `s` is a digit, there is at least one, and the value fits in
/// the integer type; returns nothing otherwise.
pub fn dec_value_checked(s: &str) -> (r: Option<i32>)
    ensures
        match r {
            Some(v) => is_digit_seq(s@) && s@.len() > 0 && v as int == dec_value(s@),
            None => !(is_digit_seq(s@) && s@.len() > 0 && dec_value(s@) <= i32::MAX as int),
        },
{
    let n = s.unicode_len();
    if n == 0 {
        return None;
    }
    // `acc` follows the value of the prefix read so far, capped at 2^32 so
    // that it never overflows; the cap itself already exceeds every value of
    // the result type.
    let cap: u64 = 0x1_0000_0000;
    let mut acc: u64 = 0;
    let mut i: usize = 0;
    while i < n
        invariant
            0 <= i <= n,
            n == s@.len(),
            is_digit_seq(s@.subrange(0, i as int)),
            acc as int == if dec_value(s@.subrange(0, i as int)) < cap as int {
                dec_value(s@.subrange(0, i as int))
            } else {
                cap as int
            },
            cap == 0x1_0000_0000u64,
        decreases n - i,
    {
        let c = s.get_char(i);
        if !is_digit(c) {
            proof {
                assert(!is_digit_char(s@[i as int]));
            }
            return None;
        }
        let d: u64 = (c as u32 - '0' as u32) as u64;
        proof {
            let pre = s@.subrange(0, i as int);
            let pre2 = s@.subrange(0, i as int + 1);
            assert(pre2.drop_last() =~= pre);
            assert(pre2.last() == s@[i as int]);
            assert(is_digit_seq(pre2));
            lemma_dec_value_nonneg(pre);
        }
        let next = acc * 10 + d;
        acc = if next > cap { cap } else { next };
        i = i + 1;
    }
    proof {
        assert(s@.subrange(0, n as int) =~= s@);
        lemma_dec_value_nonneg(s@);
    }
    if acc <= 0x7fff_ffff {
        Some(acc as i32)
    } else {
        None
    }
}

} // verus!
