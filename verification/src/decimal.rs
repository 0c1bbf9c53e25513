//! Decimal integer parsing with the rules of `u64::from_str` and `i64::from_str`:
//! an optional sign (`+`, and `-` for signed numbers), then one or more ASCII
//! digits, with no other characters, and a value that fits the type. A failure
//! names its kind as std's `IntErrorKind` does, for the first problem found
//! reading from the left.
use vstd::prelude::*;
use crate::text::chars_of;

verus! {

/// Why a text is not a number of the type asked for.
#[derive(Clone, Copy, Debug, PartialEq, Eq, Structural)]
pub enum IntErrorKind {
    /// The text is empty.
    Empty,
    /// The text holds a character that is not a digit where a digit belongs.
    InvalidDigit,
    /// The number is above the type's largest value.
    PosOverflow,
    /// The number is below the type's smallest value.
    NegOverflow,
}

/// The description std gives of each kind of failure.
pub open spec fn int_error_message(kind: IntErrorKind) -> Seq<char> {
    match kind {
        IntErrorKind::Empty => "cannot parse integer from empty string"@,
        IntErrorKind::InvalidDigit => "invalid digit found in string"@,
        IntErrorKind::PosOverflow => "number too large to fit in target type"@,
        IntErrorKind::NegOverflow => "number too small to fit in target type"@,
    }
}

impl IntErrorKind {
    /// The description std gives of the failure.
    pub fn message(&self) -> (m: &'static str)
        ensures
            m@ == int_error_message(*self),
    {
        match self {
            IntErrorKind::Empty => "cannot parse integer from empty string",
            IntErrorKind::InvalidDigit => "invalid digit found in string",
            IntErrorKind::PosOverflow => "number too large to fit in target type",
            IntErrorKind::NegOverflow => "number too small to fit in target type",
        }
    }
}

pub open spec fn is_digit(c: char) -> bool {
    '0' <= c && c <= '9'
}

pub open spec fn digit_value(c: char) -> int {
    c as int - '0' as int
}

/// Where reading a run of digits stops short.
#[derive(Clone, Copy, Debug, PartialEq, Eq, Structural)]
pub enum DigitsProblem {
    /// A character that is not a digit.
    NotADigit,
    /// The value read so far exceeds the bound.
    TooLarge,
}

/// Reads the digits of `d` from the left, keeping the value at most `max`:
/// the value of all of them, or the first problem met.
pub open spec fn scan_digits(d: Seq<char>, max: int) -> Result<int, DigitsProblem>
    decreases d.len(),
{
    if d.len() == 0 {
        Ok(0)
    } else {
        match scan_digits(d.drop_last(), max) {
            Err(p) => Err(p),
            Ok(v) => if !is_digit(d.last()) {
                Err(DigitsProblem::NotADigit)
            } else if v * 10 + digit_value(d.last()) > max {
                Err(DigitsProblem::TooLarge)
            } else {
                Ok(v * 10 + digit_value(d.last()))
            },
        }
    }
}

/// What `u64::from_str` returns for `s`.
pub open spec fn spec_parse_u64(s: Seq<char>) -> Result<u64, IntErrorKind> {
    if s.len() == 0 {
        Err(IntErrorKind::Empty)
    } else {
        let digits = if s[0] == '+' { s.drop_first() } else { s };
        if digits.len() == 0 {
            Err(IntErrorKind::InvalidDigit)
        } else {
            match scan_digits(digits, u64::MAX as int) {
                Ok(v) => Ok(v as u64),
                Err(DigitsProblem::NotADigit) => Err(IntErrorKind::InvalidDigit),
                Err(DigitsProblem::TooLarge) => Err(IntErrorKind::PosOverflow),
            }
        }
    }
}

/// What `i64::from_str` returns for `s`.
pub open spec fn spec_parse_i64(s: Seq<char>) -> Result<i64, IntErrorKind> {
    if s.len() == 0 {
        Err(IntErrorKind::Empty)
    } else if s[0] == '-' {
        let digits = s.drop_first();
        if digits.len() == 0 {
            Err(IntErrorKind::InvalidDigit)
        } else {
            match scan_digits(digits, 0x8000_0000_0000_0000) {
                Ok(v) => Ok((-v) as i64),
                Err(DigitsProblem::NotADigit) => Err(IntErrorKind::InvalidDigit),
                Err(DigitsProblem::TooLarge) => Err(IntErrorKind::NegOverflow),
            }
        }
    } else {
        let digits = if s[0] == '+' { s.drop_first() } else { s };
        if digits.len() == 0 {
            Err(IntErrorKind::InvalidDigit)
        } else {
            match scan_digits(digits, i64::MAX as int) {
                Ok(v) => Ok(v as i64),
                Err(DigitsProblem::NotADigit) => Err(IntErrorKind::InvalidDigit),
                Err(DigitsProblem::TooLarge) => Err(IntErrorKind::PosOverflow),
            }
        }
    }
}

proof fn lemma_scan_nonneg(d: Seq<char>, max: int)
    ensures
        scan_digits(d, max) matches Ok(v) ==> 0 <= v <= max || (d.len() == 0 && v == 0),
    decreases d.len(),
{
    if d.len() > 0 {
        lemma_scan_nonneg(d.drop_last(), max);
    }
}

/// A problem in a prefix is the problem of the whole run.
proof fn lemma_scan_prefix_problem(d: Seq<char>, k: int, max: int)
    requires
        0 <= k <= d.len(),
        scan_digits(d.take(k), max) is Err,
    ensures
        scan_digits(d, max) == scan_digits(d.take(k), max),
    decreases d.len() - k,
{
    if k < d.len() {
        assert(d.take(k + 1).drop_last() =~= d.take(k));
        lemma_scan_prefix_problem(d, k + 1, max);
    } else {
        assert(d.take(k) =~= d);
    }
}

/// Reads the digits in `chars[start..]` with the bound `max`, as `scan_digits` does.
fn parse_digits(chars: &Vec<char>, start: usize, max: u64) -> (r: Result<u64, DigitsProblem>)
    requires
        start <= chars.len(),
    ensures
        match scan_digits(chars@.subrange(start as int, chars@.len() as int), max as int) {
            Ok(v) => r == Ok::<u64, DigitsProblem>(v as u64) && 0 <= v <= max,
            Err(p) => r == Err::<u64, DigitsProblem>(p),
        },
{
    let ghost digits = chars@.subrange(start as int, chars@.len() as int);
    let mut acc: u64 = 0;
    let mut i: usize = start;
    assert(digits.take(0) =~= Seq::<char>::empty());
    while i < chars.len()
        invariant
            start <= i <= chars.len(),
            acc <= max,
            digits == chars@.subrange(start as int, chars@.len() as int),
            scan_digits(digits.take(i - start), max as int) == Ok::<int, DigitsProblem>(acc as int),
        decreases chars.len() - i,
    {
        let c = chars[i];
        let ghost prefix = digits.take(i + 1 - start);
        assert(prefix.drop_last() =~= digits.take(i - start));
        assert(prefix.last() == c);
        if c < '0' || c > '9' {
            proof {
                lemma_scan_prefix_problem(digits, i + 1 - start, max as int);
            }
            return Err(DigitsProblem::NotADigit);
        }
        let d: u64 = ((c as u32) - ('0' as u32)) as u64;
        if d > max || acc > (max - d) / 10 {
            proof {
                assert(acc * 10 + d > max) by (nonlinear_arith)
                    requires
                        d > max || acc > (max - d) / 10,
                        d <= 9,
                ;
                lemma_scan_prefix_problem(digits, i + 1 - start, max as int);
            }
            return Err(DigitsProblem::TooLarge);
        }
        assert(acc * 10 + d <= max) by (nonlinear_arith)
            requires
                d <= max,
                acc <= (max - d) / 10,
        ;
        acc = acc * 10 + d;
        i = i + 1;
    }
    assert(digits.take(i - start) =~= digits);
    Ok(acc)
}

/// Parses `s` as `u64::from_str` does.
pub fn parse_u64(s: &str) -> (r: Result<u64, IntErrorKind>)
    ensures
        r == spec_parse_u64(s@),
{
    let chars = chars_of(s);
    if chars.len() == 0 {
        return Err(IntErrorKind::Empty);
    }
    let start: usize = if chars[0] == '+' { 1 } else { 0 };
    if start == chars.len() {
        assert(s@.drop_first().len() == 0);
        return Err(IntErrorKind::InvalidDigit);
    }
    let r = parse_digits(&chars, start, u64::MAX);
    proof {
        if start == 1 {
            assert(chars@.subrange(1, chars@.len() as int) =~= s@.drop_first());
        } else {
            assert(chars@.subrange(0, chars@.len() as int) =~= s@);
        }
    }
    match r {
        Ok(v) => Ok(v),
        Err(DigitsProblem::NotADigit) => Err(IntErrorKind::InvalidDigit),
        Err(DigitsProblem::TooLarge) => Err(IntErrorKind::PosOverflow),
    }
}

/// Parses `s` as `i64::from_str` does.
pub fn parse_i64(s: &str) -> (r: Result<i64, IntErrorKind>)
    ensures
        r == spec_parse_i64(s@),
{
    let chars = chars_of(s);
    if chars.len() == 0 {
        return Err(IntErrorKind::Empty);
    }
    if chars[0] == '-' {
        if chars.len() == 1 {
            assert(s@.drop_first().len() == 0);
            return Err(IntErrorKind::InvalidDigit);
        }
        let m = parse_digits(&chars, 1, 0x8000_0000_0000_0000u64);
        assert(chars@.subrange(1, chars@.len() as int) =~= s@.drop_first());
        match m {
            Ok(v) => {
                if v == 0x8000_0000_0000_0000u64 {
                    Ok(i64::MIN)
                } else {
                    let n: i64 = v as i64;
                    Ok(-n)
                }
            },
            Err(DigitsProblem::NotADigit) => Err(IntErrorKind::InvalidDigit),
            Err(DigitsProblem::TooLarge) => Err(IntErrorKind::NegOverflow),
        }
    } else {
        let start: usize = if chars[0] == '+' { 1 } else { 0 };
        if start == chars.len() {
            assert(s@.drop_first().len() == 0);
            return Err(IntErrorKind::InvalidDigit);
        }
        let m = parse_digits(&chars, start, i64::MAX as u64);
        proof {
            if start == 1 {
                assert(chars@.subrange(1, chars@.len() as int) =~= s@.drop_first());
            } else {
                assert(chars@.subrange(0, chars@.len() as int) =~= s@);
            }
        }
        match m {
            Ok(v) => Ok(v as i64),
            Err(DigitsProblem::NotADigit) => Err(IntErrorKind::InvalidDigit),
            Err(DigitsProblem::TooLarge) => Err(IntErrorKind::PosOverflow),
        }
    }
}

// ---------------------------------------------------------------------------
// The decimal text of a number parses back to it.

/// The digit character for a value below 10.
pub open spec fn digit_char(v: int) -> char {
    (v + 48) as char
}

/// The decimal digits of `n`, with no leading zeros (a lone `0` for zero).
pub open spec fn decimal_digits(n: nat) -> Seq<char>
    decreases n,
{
    if n < 10 {
        seq![digit_char(n as int)]
    } else {
        decimal_digits(n / 10).push(digit_char((n % 10) as int))
    }
}

/// The decimal text of `n`, as `n.to_string()` writes it: a `-` before the
/// digits of a negative number.
pub open spec fn decimal_text(n: int) -> Seq<char> {
    if n < 0 {
        seq!['-'] + decimal_digits((-n) as nat)
    } else {
        decimal_digits(n as nat)
    }
}

proof fn lemma_digit_char(v: int)
    requires
        0 <= v < 10,
    ensures
        is_digit(digit_char(v)),
        digit_value(digit_char(v)) == v,
{
    assert(digit_char(v) as int == v + 48);
}

proof fn lemma_scan_decimal_digits(n: nat, max: int)
    requires
        n <= max,
    ensures
        scan_digits(decimal_digits(n), max) == Ok::<int, DigitsProblem>(n as int),
        decimal_digits(n).len() > 0,
        decimal_digits(n)[0] != '+' && decimal_digits(n)[0] != '-',
    decreases n,
{
    let d = decimal_digits(n);
    let c = digit_char((n % 10) as int);
    assert(is_digit(c) && digit_value(c) == n % 10) by {
        lemma_digit_char((n % 10) as int);
    }
    if n < 10 {
        assert(d.drop_last() =~= Seq::<char>::empty());
        assert(d.last() == c);
        assert(scan_digits(d.drop_last(), max) == Ok::<int, DigitsProblem>(0));
    } else {
        lemma_scan_decimal_digits(n / 10, max);
        assert(d.drop_last() =~= decimal_digits(n / 10));
        assert(d.last() == c);
        assert(d[0] == decimal_digits(n / 10)[0]);
        assert((n / 10) * 10 + n % 10 == n);
    }
}

/// Every `u64` is read back from its decimal text.
pub proof fn u64_decimal_round_trip(n: u64)
    ensures
        spec_parse_u64(decimal_text(n as int)) == Ok::<u64, IntErrorKind>(n),
{
    lemma_scan_decimal_digits(n as nat, u64::MAX as int);
}

/// Every `i64` is read back from its decimal text.
pub proof fn i64_decimal_round_trip(n: i64)
    ensures
        spec_parse_i64(decimal_text(n as int)) == Ok::<i64, IntErrorKind>(n),
{
    if n < 0 {
        let m: nat = (-(n as int)) as nat;
        lemma_scan_decimal_digits(m, 0x8000_0000_0000_0000);
        let t = decimal_text(n as int);
        assert(t.drop_first() =~= decimal_digits(m));
        assert(t[0] == '-');
    } else {
        lemma_scan_decimal_digits(n as nat, i64::MAX as int);
    }
}

} // verus!
