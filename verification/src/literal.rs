//! Integer literals: the decimal text in which integer operands and results
//! travel, how it is read and how it is written.

use crate::kinds::IntegerType;
use crate::text::{chars_of, separator_free, SEPARATOR};
use vstd::prelude::*;
use vstd::string::StringExecFns;

verus! {

/// Why a text is not a literal of an integer type.
#[derive(Clone, Copy, Debug, PartialEq, Eq, Structural)]
pub enum LiteralFault {
    /// The text is empty.
    Empty,
    /// The text is not an optional sign followed by one or more decimal digits.
    InvalidDigit,
    /// The number is above the greatest value of the type.
    TooLarge,
    /// The number is below the least value of the type.
    TooSmall,
}

/// Whether `c` is one of the ten decimal digits.
pub open spec fn is_digit(c: char) -> bool {
    '0' <= c <= '9'
}

/// The number that the digit `c` stands for.
pub open spec fn digit_value(c: char) -> int {
    c as int - '0' as int
}

/// The digit that stands for `d`.
pub open spec fn digit_char(d: int) -> char {
    (d + '0' as int) as char
}

/// Whether `s` consists of decimal digits only.
pub open spec fn all_digits(s: Seq<char>) -> bool {
    forall|i: int| 0 <= i < s.len() ==> is_digit(#[trigger] s[i])
}

/// The number that the digits `s` denote, the most significant first.
pub open spec fn digits_value(s: Seq<char>) -> int
    decreases s.len(),
{
    if s.len() == 0 {
        0
    } else {
        10 * digits_value(s.drop_last()) + digit_value(s.last())
    }
}

/// Whether `s` opens with a sign: `+` always counts, `-` only for a signed type.
pub open spec fn has_sign(signed: bool, s: Seq<char>) -> bool {
    s.len() > 0 && (s[0] == '+' || (signed && s[0] == '-'))
}

/// What follows the sign of `s`, or all of `s` where it has none.
pub open spec fn digits_part(signed: bool, s: Seq<char>) -> Seq<char> {
    if has_sign(signed, s) {
        s.skip(1)
    } else {
        s
    }
}

/// The grammar of an integer literal: an optional sign, then one or more decimal
/// digits and nothing else.
pub open spec fn well_formed(signed: bool, s: Seq<char>) -> bool {
    digits_part(signed, s).len() > 0 && all_digits(digits_part(signed, s))
}

/// The number that a well-formed literal denotes.
pub open spec fn literal_value(signed: bool, s: Seq<char>) -> int {
    if has_sign(signed, s) && s[0] == '-' {
        -digits_value(digits_part(signed, s))
    } else {
        digits_value(digits_part(signed, s))
    }
}

/// What reading `s` as a literal of type `t` gives: its value, or the first of
/// the four faults that applies.
pub open spec fn parsed(t: IntegerType, s: Seq<char>) -> Result<int, LiteralFault> {
    if s.len() == 0 {
        Err(LiteralFault::Empty)
    } else if !well_formed(t.is_signed(), s) {
        Err(LiteralFault::InvalidDigit)
    } else if literal_value(t.is_signed(), s) > t.max_value() {
        Err(LiteralFault::TooLarge)
    } else if literal_value(t.is_signed(), s) < t.min_value() {
        Err(LiteralFault::TooSmall)
    } else {
        Ok(literal_value(t.is_signed(), s))
    }
}

/// The decimal digits of `n`, the most significant first, without leading zeros.
pub open spec fn digits_of(n: nat) -> Seq<char>
    decreases n,
{
    if n < 10 {
        seq![digit_char(n as int)]
    } else {
        digits_of(n / 10).push(digit_char((n % 10) as int))
    }
}

/// The canonical text of the integer `v`: a minus sign if it is negative, then
/// the digits of its magnitude.
pub open spec fn decimal(v: int) -> Seq<char> {
    if v < 0 {
        seq!['-'] + digits_of((-v) as nat)
    } else {
        digits_of(v as nat)
    }
}

/// A digit character stands for the number it was made from.
pub proof fn lemma_digit_char(d: int)
    requires
        0 <= d < 10,
    ensures
        is_digit(digit_char(d)),
        digit_value(digit_char(d)) == d,
        digit_char(d) != SEPARATOR,
        digit_char(d) != '+',
        digit_char(d) != '-',
{
}

/// The digits of a number are digits, and denote that number.
pub proof fn lemma_digits_of(n: nat)
    ensures
        digits_of(n).len() >= 1,
        all_digits(digits_of(n)),
        digits_value(digits_of(n)) == n,
    decreases n,
{
    if n < 10 {
        lemma_digit_char(n as int);
        let s = digits_of(n);
        assert(digits_value(s) == 10 * digits_value(s.drop_last()) + digit_value(s.last()));
    } else {
        lemma_digits_of(n / 10);
        lemma_digit_char((n % 10) as int);
        assert(digits_of(n).drop_last() == digits_of(n / 10));
    }
}

/// The canonical text of a value of an integer type reads back as that value.
pub proof fn lemma_parsed_decimal(t: IntegerType, v: int)
    requires
        t.holds(v),
    ensures
        parsed(t, decimal(v)) == Ok::<int, LiteralFault>(v),
        separator_free(decimal(v)),
{
    if v < 0 {
        lemma_digits_of((-v) as nat);
        assert(decimal(v).skip(1) == digits_of((-v) as nat));
    } else {
        lemma_digits_of(v as nat);
    }
}

/// A literal of an integer type holds no path separator.
pub proof fn lemma_literal_plain(t: IntegerType, s: Seq<char>)
    requires
        parsed(t, s) is Ok,
    ensures
        separator_free(s),
{
    let digits = digits_part(t.is_signed(), s);
    assert forall|i: int| 0 <= i < s.len() implies s[i] != SEPARATOR by {
        if has_sign(t.is_signed(), s) && i > 0 {
            assert(is_digit(digits[i - 1]));
        }
    }
}

/// Appending a digit to a run of digits multiplies by ten and adds.
proof fn lemma_digits_value_push(s: Seq<char>, c: char)
    ensures
        digits_value(s.push(c)) == 10 * digits_value(s) + digit_value(c),
{
    assert(s.push(c).drop_last() == s);
}

/// A run of digits denotes a number that is not negative.
proof fn lemma_digits_value_nonnegative(s: Seq<char>)
    requires
        all_digits(s),
    ensures
        digits_value(s) >= 0,
    decreases s.len(),
{
    if s.len() > 0 {
        lemma_digits_value_nonnegative(s.drop_last());
    }
}

/// Above this magnitude a number is outside every integer type.
const CEILING: i128 = 0x1_0000_0000_0000_0000;

/// Reads `text` as a literal of the integer type `t`.
pub fn parse_integer(t: IntegerType, text: &str) -> (result: Result<i128, LiteralFault>)
    ensures
        match result {
            Ok(v) => parsed(t, text@) == Ok::<int, LiteralFault>(v as int),
            Err(fault) => parsed(t, text@) == Err::<int, LiteralFault>(fault),
        },
{
    let chars = chars_of(text);
    let signed = t.signed();
    if chars.len() == 0 {
        return Err(LiteralFault::Empty);
    }
    let negative = signed && chars[0] == '-';
    let start: usize = if chars[0] == '+' || negative {
        1
    } else {
        0
    };
    let ghost digits = digits_part(signed, text@);
    if start == chars.len() {
        return Err(LiteralFault::InvalidDigit);
    }
    let mut magnitude: i128 = 0;
    let mut beyond = false;
    let mut at: usize = start;
    while at < chars.len()
        invariant
            start <= at <= chars.len(),
            chars@ == text@,
            digits == text@.skip(start as int),
            digits == digits_part(t.is_signed(), text@),
            text@.len() > 0,
            all_digits(digits.take(at - start)),
            0 <= magnitude <= CEILING,
            !beyond ==> magnitude == digits_value(digits.take(at - start)),
            beyond ==> digits_value(digits.take(at - start)) > CEILING,
        decreases chars.len() - at,
    {
        let c = chars[at];
        let ghost seen = digits.take(at - start);
        let ghost more = digits.take(at - start + 1);
        assert(more == seen.push(c));
        if !(c >= '0' && c <= '9') {
            assert(!is_digit(digits[at - start]));
            return Err(LiteralFault::InvalidDigit);
        }
        proof {
            lemma_digits_value_push(seen, c);
            lemma_digits_value_nonnegative(seen);
        }
        if !beyond {
            let digit: i128 = (c as u32 - '0' as u32) as i128;
            let next: i128 = magnitude * 10 + digit;
            if next > CEILING {
                beyond = true;
            } else {
                magnitude = next;
            }
        }
        at += 1;
    }
    assert(digits.take(at - start) == digits);
    if beyond {
        if negative {
            Err(LiteralFault::TooSmall)
        } else {
            Err(LiteralFault::TooLarge)
        }
    } else {
        let value: i128 = if negative {
            -magnitude
        } else {
            magnitude
        };
        if value > t.highest() {
            Err(LiteralFault::TooLarge)
        } else if value < t.lowest() {
            Err(LiteralFault::TooSmall)
        } else {
            Ok(value)
        }
    }
}

/// The text of one decimal digit.
fn digit_text(d: u8) -> (word: &'static str)
    requires
        d < 10,
    ensures
        word@ == seq![digit_char(d as int)],
{
    proof {
        reveal_strlit("0");
        reveal_strlit("1");
        reveal_strlit("2");
        reveal_strlit("3");
        reveal_strlit("4");
        reveal_strlit("5");
        reveal_strlit("6");
        reveal_strlit("7");
        reveal_strlit("8");
        reveal_strlit("9");
    }
    match d {
        0 => "0",
        1 => "1",
        2 => "2",
        3 => "3",
        4 => "4",
        5 => "5",
        6 => "6",
        7 => "7",
        8 => "8",
        _ => "9",
    }
}

/// Appends the decimal digits of `n` to `out`.
fn write_digits(n: u128, out: &mut String)
    ensures
        final(out)@ == old(out)@ + digits_of(n as nat),
    decreases n,
{
    if n >= 10 {
        write_digits(n / 10, out);
    }
    let d: u8 = (n % 10) as u8;
    out.append(digit_text(d));
    proof {
        if n >= 10 {
            assert(old(out)@ + digits_of(n as nat) =~= (old(out)@ + digits_of((n / 10) as nat))
                + seq![digit_char((n % 10) as int)]);
        }
    }
}

/// Writes `v` in its canonical decimal text.
pub fn format_integer(v: i128) -> (text: String)
    ensures
        text@ == decimal(v as int),
{
    let mut text = String::new();
    if v < 0 {
        proof {
            reveal_strlit("-");
        }
        text.append("-");
        let magnitude: u128 = (-(v + 1)) as u128 + 1;
        write_digits(magnitude, &mut text);
    } else {
        write_digits(v as u128, &mut text);
    }
    text
}

} // verus!
