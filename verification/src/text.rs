//! Decimal rendering of integers into strings.

use vstd::prelude::*;
use vstd::string::*;

verus! {

/// The character that stands for the digit `d`, for `0 <= d <= 9`.
pub open spec fn digit_char(d: int) -> char {
    if d == 0 {
        '0'
    } else if d == 1 {
        '1'
    } else if d == 2 {
        '2'
    } else if d == 3 {
        '3'
    } else if d == 4 {
        '4'
    } else if d == 5 {
        '5'
    } else if d == 6 {
        '6'
    } else if d == 7 {
        '7'
    } else if d == 8 {
        '8'
    } else {
        '9'
    }
}

/// The decimal digits of `n`, most significant first, without leading zeros.
pub open spec fn decimal(n: nat) -> Seq<char>
    decreases n,
{
    if n < 10 {
        seq![digit_char(n as int)]
    } else {
        decimal(n / 10).push(digit_char((n % 10) as int))
    }
}

/// The decimal digits of `i`, with a leading minus sign when it is negative.
pub open spec fn signed_decimal(i: int) -> Seq<char> {
    if i < 0 {
        seq!['-'] + decimal((-i) as nat)
    } else {
        decimal(i as nat)
    }
}

/// The decimal digits of `n`, padded with a zero to two places.
pub open spec fn two_digits(n: nat) -> Seq<char> {
    if n < 10 {
        seq!['0'] + decimal(n)
    } else {
        decimal(n)
    }
}

/// The one-character string for the digit `d`.
fn digit_str(d: u64) -> (s: &'static str)
    requires
        d < 10,
    ensures
        s@ == seq![digit_char(d as int)],
{
    proof {
        reveal_strlit("0");
        reveal_strlit("1");
        reveal_strlit("2");
        reveal_strlit("3");
        reveal_strlit("4");
        reveal_strlit("5");
        reveal_strlit("6");
        reveal_strlit("7");
        reveal_strlit("8");
        reveal_strlit("9");
    }
    let s = if d == 0 {
        "0"
    } else if d == 1 {
        "1"
    } else if d == 2 {
        "2"
    } else if d == 3 {
        "3"
    } else if d == 4 {
        "4"
    } else if d == 5 {
        "5"
    } else if d == 6 {
        "6"
    } else if d == 7 {
        "7"
    } else if d == 8 {
        "8"
    } else {
        "9"
    };
    s
}

/// Appends the decimal digits of `n` to `out`.
pub fn push_decimal(out: &mut String, n: u64)
    ensures
        final(out)@ == old(out)@ + decimal(n as nat),
    decreases n,
{
    if n >= 10 {
        push_decimal(out, n / 10);
    }
    out.append(digit_str(n % 10));
}

/// Appends the decimal digits of `i` to `out`, after a minus sign when it is negative.
pub fn push_signed_decimal(out: &mut String, i: i64)
    ensures
        final(out)@ == old(out)@ + signed_decimal(i as int),
{
    if i < 0 {
        out.append("-");
        proof {
            reveal_strlit("-");
        }
        let magnitude: u64 = if i == i64::MIN {
            9223372036854775808u64
        } else {
            (-i) as u64
        };
        push_decimal(out, magnitude);
    } else {
        push_decimal(out, i as u64);
    }
}

/// Appends `n` to `out` in at least two decimal places.
pub fn push_two_digits(out: &mut String, n: u64)
    ensures
        final(out)@ == old(out)@ + two_digits(n as nat),
{
    if n < 10 {
        out.append("0");
        proof {
            reveal_strlit("0");
        }
    }
    push_decimal(out, n);
}

/// Whether `c` is one of the ten decimal digits.
pub open spec fn is_digit(c: char) -> bool {
    '0' <= c <= '9'
}

/// The number that a sequence of decimal digits stands for.
pub open spec fn digits_value(digits: Seq<char>) -> nat
    decreases digits.len(),
{
    if digits.len() == 0 {
        0
    } else {
        digits_value(digits.drop_last()) * 10 + (digits.last() as u32 - '0' as u32) as nat
    }
}

/// What is left of `text` after one leading plus sign, if it has one.
pub open spec fn unsigned_part(text: Seq<char>) -> Seq<char> {
    if text.len() > 0 && text[0] == '+' {
        text.skip(1)
    } else {
        text
    }
}

/// The number that `text` stands for: one or more decimal digits, with at
/// most one plus sign in front of them and nothing else round them, whose
/// value fits into 64 bits.
pub open spec fn parsed_decimal(text: Seq<char>) -> Option<u64> {
    let digits = unsigned_part(text);
    if digits.len() > 0 && (forall|i: int| 0 <= i < digits.len() ==> is_digit(#[trigger] digits[i]))
        && digits_value(digits) <= u64::MAX {
        Some(digits_value(digits) as u64)
    } else {
        None
    }
}

/// The digits read so far never stand for more than all of them together.
proof fn digits_value_grows(digits: Seq<char>, read: int)
    requires
        0 <= read <= digits.len(),
        forall|i: int| 0 <= i < digits.len() ==> is_digit(#[trigger] digits[i]),
    ensures
        digits_value(digits.take(read)) <= digits_value(digits),
    decreases digits.len() - read,
{
    if read < digits.len() {
        digits_value_grows(digits, read + 1);
        assert(digits.take(read + 1).drop_last() =~= digits.take(read));
    } else {
        assert(digits.take(read) =~= digits);
    }
}

/// Reads a decimal number: digits only, after at most one plus sign.
pub fn parse_decimal(text: &str) -> (parsed: Option<u64>)
    ensures
        parsed == parsed_decimal(text@),
{
    let mut value: u64 = 0;
    let mut any = false;
    let mut start = true;
    for c in it: text.chars()
        invariant
            it.seq() == text@,
            start == (it.index() == 0),
            any == (unsigned_part(text@.take(it.index())).len() > 0),
            forall|i: int|
                0 <= i < unsigned_part(text@.take(it.index())).len() ==> is_digit(
                    #[trigger] unsigned_part(text@.take(it.index()))[i],
                ),
            value == digits_value(unsigned_part(text@.take(it.index()))),
    {
        let ghost read = it.index();
        let ghost before = unsigned_part(text@.take(read));
        let ghost after = unsigned_part(text@.take(read + 1));
        let ghost all = unsigned_part(text@);
        let sign = start && c == '+';
        start = false;
        if !sign {
            proof {
                assert(after =~= before.push(c));
                assert(after.drop_last() =~= before);
                assert(all[after.len() - 1] == c);
            }
            if !('0' <= c && c <= '9') {
                return None;
            }
            let digit = (c as u32 - '0' as u32) as u64;
            let shifted = match value.checked_mul(10) {
                Some(shifted) => shifted,
                None => {
                    proof {
                        if forall|i: int| 0 <= i < all.len() ==> is_digit(#[trigger] all[i]) {
                            assert(all.take(after.len() as int) =~= after);
                            digits_value_grows(all, after.len() as int);
                        }
                    }
                    return None;
                },
            };
            value = match shifted.checked_add(digit) {
                Some(sum) => sum,
                None => {
                    proof {
                        if forall|i: int| 0 <= i < all.len() ==> is_digit(#[trigger] all[i]) {
                            assert(all.take(after.len() as int) =~= after);
                            digits_value_grows(all, after.len() as int);
                        }
                    }
                    return None;
                },
            };
            any = true;
        }
    }
    assert(text@.take(text@.len() as int) =~= text@);
    if any {
        Some(value)
    } else {
        None
    }
}

} // verus!
