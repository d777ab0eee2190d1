//! Decimal integer parsing with the grammar and error kinds of the standard
//! library's `FromStr` for integers: an optional sign, then ASCII digits.

use vstd::prelude::*;
use crate::text::chars_of;

verus! {

/// Why a text is not an integer of the wanted type.
#[derive(Debug, Clone, Copy, PartialEq, Eq, Structural)]
pub enum IntErrorKind {
    /// The text is empty.
    Empty,
    /// A character that is not an ASCII digit, or a lone sign.
    InvalidDigit,
    /// The value is above the type's maximum.
    PosOverflow,
    /// The value is below the type's minimum.
    NegOverflow,
}

/// The text with which the standard library describes each kind of error.
pub open spec fn int_error_text(k: IntErrorKind) -> Seq<char> {
    match k {
        IntErrorKind::Empty => "cannot parse integer from empty string"@,
        IntErrorKind::InvalidDigit => "invalid digit found in string"@,
        IntErrorKind::PosOverflow => "number too large to fit in target type"@,
        IntErrorKind::NegOverflow => "number too small to fit in target type"@,
    }
}

impl IntErrorKind {
    /// The description of the error, as the standard library words it.
    pub fn message(&self) -> (res: &'static str)
        ensures
            res@ == int_error_text(*self),
    {
        match self {
            IntErrorKind::Empty => "cannot parse integer from empty string",
            IntErrorKind::InvalidDigit => "invalid digit found in string",
            IntErrorKind::PosOverflow => "number too large to fit in target type",
            IntErrorKind::NegOverflow => "number too small to fit in target type",
        }
    }
}

/// An ASCII decimal digit.
pub open spec fn is_digit(c: char) -> bool {
    '0' <= c && c <= '9'
}

/// The value of an ASCII decimal digit.
pub open spec fn digit_value(c: char) -> int {
    (c as u32) as int - ('0' as u32) as int
}

/// Reads digits left to right onto `acc`; the first non-digit, or the first
/// digit that takes the value past `max`, decides the error.
pub open spec fn read_digits(d: Seq<char>, acc: int, max: int, overflow: IntErrorKind) -> Result<
    int,
    IntErrorKind,
>
    decreases d.len(),
{
    if d.len() == 0 {
        Ok(acc)
    } else if !is_digit(d[0]) {
        Err(IntErrorKind::InvalidDigit)
    } else if acc * 10 + digit_value(d[0]) > max {
        Err(overflow)
    } else {
        read_digits(d.drop_first(), acc * 10 + digit_value(d[0]), max, overflow)
    }
}

/// The value of a decimal text for a type whose values run from `-neg_max`
/// (or 0 when `signed` is false) to `pos_max`.
pub open spec fn parse_int(s: Seq<char>, signed: bool, pos_max: int, neg_max: int) -> Result<
    int,
    IntErrorKind,
> {
    if s.len() == 0 {
        Err(IntErrorKind::Empty)
    } else if s.len() == 1 && (s[0] == '+' || s[0] == '-') {
        Err(IntErrorKind::InvalidDigit)
    } else if s[0] == '+' {
        read_digits(s.drop_first(), 0, pos_max, IntErrorKind::PosOverflow)
    } else if s[0] == '-' && signed {
        match read_digits(s.drop_first(), 0, neg_max, IntErrorKind::NegOverflow) {
            Ok(m) => Ok(-m),
            Err(e) => Err(e),
        }
    } else {
        read_digits(s, 0, pos_max, IntErrorKind::PosOverflow)
    }
}

/// What `str::parse::<u64>` gives for this text.
pub open spec fn parse_u64_spec(s: Seq<char>) -> Result<int, IntErrorKind> {
    parse_int(s, false, u64::MAX as int, 0)
}

/// What `str::parse::<u16>` gives for this text.
pub open spec fn parse_u16_spec(s: Seq<char>) -> Result<int, IntErrorKind> {
    parse_int(s, false, u16::MAX as int, 0)
}

/// What `str::parse::<i64>` gives for this text.
pub open spec fn parse_i64_spec(s: Seq<char>) -> Result<int, IntErrorKind> {
    parse_int(s, true, i64::MAX as int, 0x8000_0000_0000_0000)
}

/// `10` to the power `n`.
pub open spec fn pow10(n: nat) -> nat
    decreases n,
{
    if n == 0 {
        1
    } else {
        10 * pow10((n - 1) as nat)
    }
}

/// Every character is an ASCII digit.
pub open spec fn all_digits(d: Seq<char>) -> bool {
    forall|i: int| 0 <= i < d.len() ==> is_digit(#[trigger] d[i])
}

/// The value of a run of ASCII digits read as a decimal numeral.
pub open spec fn decimal_value(d: Seq<char>) -> int
    decreases d.len(),
{
    if d.len() == 0 {
        0
    } else {
        digit_value(d[0]) * pow10((d.len() - 1) as nat) + decimal_value(d.drop_first())
    }
}

proof fn lemma_pow10_positive(n: nat)
    ensures
        pow10(n) >= 1,
    decreases n,
{
    if n > 0 {
        lemma_pow10_positive((n - 1) as nat);
    }
}

proof fn lemma_decimal_value_nonneg(d: Seq<char>)
    requires
        all_digits(d),
    ensures
        decimal_value(d) >= 0,
    decreases d.len(),
{
    if d.len() > 0 {
        assert(is_digit(d[0]));
        lemma_pow10_positive((d.len() - 1) as nat);
        assert(all_digits(d.drop_first())) by {
            assert forall|i: int| 0 <= i < d.drop_first().len() implies is_digit(
                #[trigger] d.drop_first()[i],
            ) by {
                assert(d.drop_first()[i] == d[i + 1]);
            }
        }
        lemma_decimal_value_nonneg(d.drop_first());
        let a = digit_value(d[0]);
        let p = pow10((d.len() - 1) as nat) as int;
        assert(a * p >= 0) by (nonlinear_arith)
            requires
                a >= 0,
                p >= 1,
        ;
    }
}

proof fn lemma_read_digits_value(d: Seq<char>, acc: int, max: int, overflow: IntErrorKind)
    requires
        all_digits(d),
        acc >= 0,
        acc * pow10(d.len()) + decimal_value(d) <= max,
    ensures
        read_digits(d, acc, max, overflow) == Ok::<int, IntErrorKind>(
            acc * pow10(d.len()) + decimal_value(d),
        ),
    decreases d.len(),
{
    if d.len() > 0 {
        let rest = d.drop_first();
        assert(is_digit(d[0]));
        assert(all_digits(rest)) by {
            assert forall|i: int| 0 <= i < rest.len() implies is_digit(#[trigger] rest[i]) by {
                assert(rest[i] == d[i + 1]);
            }
        }
        let a = digit_value(d[0]);
        let p = pow10(rest.len()) as int;
        let v = decimal_value(rest);
        let acc2 = acc * 10 + a;
        lemma_pow10_positive(rest.len());
        lemma_decimal_value_nonneg(rest);
        assert(pow10(d.len()) == 10 * p);
        assert(decimal_value(d) == a * p + v);
        assert(acc * pow10(d.len()) + decimal_value(d) == acc2 * p + v) by (nonlinear_arith)
            requires
                pow10(d.len()) == 10 * p,
                decimal_value(d) == a * p + v,
                acc2 == acc * 10 + a,
        ;
        assert(acc2 <= acc2 * p) by (nonlinear_arith)
            requires
                acc2 >= 0,
                p >= 1,
        ;
        assert(acc2 <= max);
        assert(!(acc * 10 + digit_value(d[0]) > max));
        lemma_read_digits_value(rest, acc2, max, overflow);
        assert(read_digits(d, acc, max, overflow) == read_digits(rest, acc2, max, overflow));
    } else {
        assert(pow10(0) == 1);
        assert(pow10(d.len()) == 1);
        assert(acc * pow10(d.len()) == acc * 1);
    }
}

/// A decimal numeral within range reads as its value: plain digits, or digits
/// after `+`, give their decimal value when it is at most `pos_max`; for a
/// signed type, digits after `-` give minus their value when it is at most
/// `neg_max`.
pub proof fn lemma_numerals_read_as_their_value(
    d: Seq<char>,
    signed: bool,
    pos_max: int,
    neg_max: int,
)
    requires
        d.len() > 0,
        all_digits(d),
    ensures
        decimal_value(d) <= pos_max ==> parse_int(d, signed, pos_max, neg_max)
            == Ok::<int, IntErrorKind>(decimal_value(d)),
        decimal_value(d) <= pos_max ==> parse_int(seq!['+'] + d, signed, pos_max, neg_max)
            == Ok::<int, IntErrorKind>(decimal_value(d)),
        signed && decimal_value(d) <= neg_max ==> parse_int(seq!['-'] + d, signed, pos_max, neg_max)
            == Ok::<int, IntErrorKind>(-decimal_value(d)),
{
    lemma_pow10_positive(d.len());
    assert(is_digit(d[0]));
    assert(pow10(d.len()) >= 1);
    if decimal_value(d) <= pos_max {
        lemma_read_digits_value(d, 0, pos_max, IntErrorKind::PosOverflow);
        assert((seq!['+'] + d).drop_first() =~= d);
    }
    if signed && decimal_value(d) <= neg_max {
        lemma_read_digits_value(d, 0, neg_max, IntErrorKind::NegOverflow);
        assert((seq!['-'] + d).drop_first() =~= d);
    }
}

proof fn lemma_read_digits_bounded(d: Seq<char>, acc: int, max: int, overflow: IntErrorKind)
    requires
        0 <= acc <= max,
    ensures
        read_digits(d, acc, max, overflow) matches Ok(v) ==> 0 <= v <= max,
    decreases d.len(),
{
    if d.len() > 0 && is_digit(d[0]) && acc * 10 + digit_value(d[0]) <= max {
        lemma_read_digits_bounded(d.drop_first(), acc * 10 + digit_value(d[0]), max, overflow);
    }
}

/// Reads `d[start..]` as digits onto `acc` without going past `max`.
fn read_digits_exec(d: &Vec<char>, start: usize, max: u64, overflow: IntErrorKind) -> (res: Result<
    u64,
    IntErrorKind,
>)
    requires
        start <= d@.len(),
    ensures
        match res {
            Ok(v) => read_digits(d@.skip(start as int), 0, max as int, overflow) == Ok::<
                int,
                IntErrorKind,
            >(v as int),
            Err(e) => read_digits(d@.skip(start as int), 0, max as int, overflow) == Err::<
                int,
                IntErrorKind,
            >(e),
        },
{
    let mut acc: u64 = 0;
    let mut i: usize = start;
    while i < d.len()
        invariant
            start <= i <= d@.len(),
            acc <= max,
            read_digits(d@.skip(start as int), 0, max as int, overflow) == read_digits(
                d@.skip(i as int),
                acc as int,
                max as int,
                overflow,
            ),
        decreases d@.len() - i,
    {
        let c = d[i];
        assert(d@.skip(i as int)[0] == c);
        assert(d@.skip(i as int).drop_first() == d@.skip(i + 1));
        if !('0' <= c && c <= '9') {
            return Err(IntErrorKind::InvalidDigit);
        }
        let x: u64 = (c as u32 - '0' as u32) as u64;
        assert(x as int == digit_value(c));
        if x > max || acc > (max - x) / 10 {
            assert(acc * 10 + x > max) by (nonlinear_arith)
                requires
                    x > max || acc > (max - x) / 10,
                    acc >= 0,
                    x >= 0,
            ;
            return Err(overflow);
        }
        assert(acc * 10 + x <= max) by (nonlinear_arith)
            requires
                x <= max,
                acc <= (max - x) / 10,
                acc >= 0,
        ;
        acc = acc * 10 + x;
        i = i + 1;
    }
    assert(d@.skip(i as int).len() == 0);
    Ok(acc)
}

/// Parses a decimal `u64` exactly as `str::parse::<u64>` does.
pub fn parse_u64(s: &str) -> (res: Result<u64, IntErrorKind>)
    ensures
        match res {
            Ok(v) => parse_u64_spec(s@) == Ok::<int, IntErrorKind>(v as int),
            Err(e) => parse_u64_spec(s@) == Err::<int, IntErrorKind>(e),
        },
{
    let d = chars_of(s);
    if d.len() == 0 {
        return Err(IntErrorKind::Empty);
    }
    if d.len() == 1 && (d[0] == '+' || d[0] == '-') {
        return Err(IntErrorKind::InvalidDigit);
    }
    let start: usize = if d[0] == '+' {
        1
    } else {
        0
    };
    assert(d@.skip(0) == d@);
    assert(d@.skip(1) == d@.drop_first());
    read_digits_exec(&d, start, u64::MAX, IntErrorKind::PosOverflow)
}

/// Parses a decimal `u16` exactly as `str::parse::<u16>` does.
pub fn parse_u16(s: &str) -> (res: Result<u16, IntErrorKind>)
    ensures
        match res {
            Ok(v) => parse_u16_spec(s@) == Ok::<int, IntErrorKind>(v as int),
            Err(e) => parse_u16_spec(s@) == Err::<int, IntErrorKind>(e),
        },
{
    let d = chars_of(s);
    if d.len() == 0 {
        return Err(IntErrorKind::Empty);
    }
    if d.len() == 1 && (d[0] == '+' || d[0] == '-') {
        return Err(IntErrorKind::InvalidDigit);
    }
    let start: usize = if d[0] == '+' {
        1
    } else {
        0
    };
    assert(d@.skip(0) == d@);
    assert(d@.skip(1) == d@.drop_first());
    proof {
        lemma_read_digits_bounded(d@.skip(start as int), 0, u16::MAX as int, IntErrorKind::PosOverflow);
    }
    match read_digits_exec(&d, start, u16::MAX as u64, IntErrorKind::PosOverflow) {
        Ok(v) => Ok(v as u16),
        Err(e) => Err(e),
    }
}

/// Parses a decimal `i64` exactly as `str::parse::<i64>` does.
pub fn parse_i64(s: &str) -> (res: Result<i64, IntErrorKind>)
    ensures
        match res {
            Ok(v) => parse_i64_spec(s@) == Ok::<int, IntErrorKind>(v as int),
            Err(e) => parse_i64_spec(s@) == Err::<int, IntErrorKind>(e),
        },
{
    let d = chars_of(s);
    if d.len() == 0 {
        return Err(IntErrorKind::Empty);
    }
    if d.len() == 1 && (d[0] == '+' || d[0] == '-') {
        return Err(IntErrorKind::InvalidDigit);
    }
    assert(d@.skip(0) == d@);
    assert(d@.skip(1) == d@.drop_first());
    if d[0] == '-' {
        proof {
            lemma_read_digits_bounded(d@.skip(1), 0, 0x8000_0000_0000_0000, IntErrorKind::NegOverflow);
        }
        match read_digits_exec(&d, 1, 0x8000_0000_0000_0000, IntErrorKind::NegOverflow) {
            Ok(m) => {
                if m == 0x8000_0000_0000_0000 {
                    Ok(i64::MIN)
                } else {
                    Ok(-(m as i64))
                }
            },
            Err(e) => Err(e),
        }
    } else {
        let start: usize = if d[0] == '+' {
            1
        } else {
            0
        };
        proof {
            lemma_read_digits_bounded(d@.skip(start as int), 0, i64::MAX as int, IntErrorKind::PosOverflow);
        }
        match read_digits_exec(&d, start, i64::MAX as u64, IntErrorKind::PosOverflow) {
            Ok(v) => Ok(v as i64),
            Err(e) => Err(e),
        }
    }
}

} // verus!
