//! Integer fields that arrive either as JSON numbers or as decimal text.

use vstd::prelude::*;
use crate::text::{chars_of, decimal, digit_char, signed_decimal};

verus! {

/// Why a decimal numeral could not be read as an `i64`, in the categories
/// of the standard library's integer parser.
#[derive(Debug, Clone, Copy, PartialEq, Eq)]
pub enum IntParseError {
    /// The text was empty.
    Empty,
    /// A character was not a decimal digit, or a sign stood alone.
    InvalidDigit,
    /// The value is above `i64::MAX`.
    PosOverflow,
    /// The value is below `i64::MIN`.
    NegOverflow,
}

impl IntParseError {
    /// The message the standard library prints for this failure.
    pub fn message(&self) -> (res: String)
        ensures
            res@ == self.message_spec(),
    {
        match self {
            IntParseError::Empty => String::from_str("cannot parse integer from empty string"),
            IntParseError::InvalidDigit => String::from_str("invalid digit found in string"),
            IntParseError::PosOverflow => String::from_str("number too large to fit in target type"),
            IntParseError::NegOverflow => String::from_str("number too small to fit in target type"),
        }
    }

    pub open spec fn message_spec(&self) -> Seq<char> {
        match self {
            IntParseError::Empty => "cannot parse integer from empty string"@,
            IntParseError::InvalidDigit => "invalid digit found in string"@,
            IntParseError::PosOverflow => "number too large to fit in target type"@,
            IntParseError::NegOverflow => "number too small to fit in target type"@,
        }
    }
}

pub open spec fn is_decimal_digit(c: char) -> bool {
    '0' <= c && c <= '9'
}

pub open spec fn digit_value(c: char) -> int {
    c as int - 48
}

/// Reads the digits `body[i..]` after the accumulated value `acc`, failing
/// at the first character that is not a digit or at the first step that
/// leaves the `i64` range; a negative numeral accumulates downwards.
pub open spec fn scan_digits(body: Seq<char>, i: int, acc: int, negative: bool) -> Result<int, IntParseError>
    decreases body.len() - i,
{
    if i < 0 || i >= body.len() {
        Ok(acc)
    } else if !is_decimal_digit(body[i]) {
        Err(IntParseError::InvalidDigit)
    } else {
        let next = if negative { acc * 10 - digit_value(body[i]) } else { acc * 10 + digit_value(body[i]) };
        if next > i64::MAX {
            Err(IntParseError::PosOverflow)
        } else if next < i64::MIN {
            Err(IntParseError::NegOverflow)
        } else {
            scan_digits(body, i + 1, next, negative)
        }
    }
}

/// What `i64::from_str_radix(s, 10)` returns: an optional sign, then at
/// least one decimal digit, read left to right.
pub open spec fn parse_i64_spec(s: Seq<char>) -> Result<int, IntParseError> {
    if s.len() == 0 {
        Err(IntParseError::Empty)
    } else if (s[0] == '-' || s[0] == '+') && s.len() == 1 {
        Err(IntParseError::InvalidDigit)
    } else if s[0] == '-' {
        scan_digits(s, 1, 0, true)
    } else if s[0] == '+' {
        scan_digits(s, 1, 0, false)
    } else {
        scan_digits(s, 0, 0, false)
    }
}

/// Reads a base-ten integer with an optional sign.
pub fn parse_i64_decimal(s: &str) -> (res: Result<i64, IntParseError>)
    ensures
        match parse_i64_spec(s@) {
            Ok(v) => res == Ok::<i64, IntParseError>(v as i64),
            Err(e) => res == Err::<i64, IntParseError>(e),
        },
{
    let cs = chars_of(s);
    if cs.len() == 0 {
        return Err(IntParseError::Empty);
    }
    let first = cs[0];
    if (first == '-' || first == '+') && cs.len() == 1 {
        return Err(IntParseError::InvalidDigit);
    }
    let negative = first == '-';
    let mut i: usize = if first == '-' || first == '+' { 1 } else { 0 };
    let mut acc: i64 = 0;
    while i < cs.len()
        invariant
            cs@ == s@,
            cs@.len() > 0,
            negative == (cs@[0] == '-'),
            1 <= i <= cs.len() || (i == 0 && cs@[0] != '-' && cs@[0] != '+'),
            (cs@[0] == '-' || cs@[0] == '+') ==> i >= 1,
            parse_i64_spec(s@) == scan_digits(cs@, i as int, acc as int, negative),
        decreases cs.len() - i,
    {
        let c = cs[i];
        if !('0' <= c && c <= '9') {
            return Err(IntParseError::InvalidDigit);
        }
        let d: i64 = (c as u32 - 48u32) as i64;
        let wide: i128 = if negative { (acc as i128) * 10 - (d as i128) } else { (acc as i128) * 10 + (d as i128) };
        if wide > i64::MAX as i128 {
            return Err(IntParseError::PosOverflow);
        }
        if wide < i64::MIN as i128 {
            return Err(IntParseError::NegOverflow);
        }
        acc = wide as i64;
        i = i + 1;
    }
    Ok(acc)
}

/// The value `scan_digits` reaches when no step fails.
pub open spec fn scan_value(body: Seq<char>, i: int, acc: int, negative: bool) -> int
    decreases body.len() - i,
{
    if i < 0 || i >= body.len() {
        acc
    } else {
        scan_value(body, i + 1, if negative { acc * 10 - digit_value(body[i]) } else { acc * 10 + digit_value(body[i]) }, negative)
    }
}

/// Every character of `s` from position `i` on is a decimal digit.
pub open spec fn digits_from(s: Seq<char>, i: int) -> bool {
    forall|k: int| i <= k < s.len() ==> is_decimal_digit(#[trigger] s[k])
}

proof fn lemma_scan_value_monotone(body: Seq<char>, i: int, acc: int, negative: bool)
    requires
        0 <= i,
        digits_from(body, i),
        negative ==> acc <= 0,
        !negative ==> acc >= 0,
    ensures
        !negative ==> scan_value(body, i, acc, negative) >= acc,
        negative ==> scan_value(body, i, acc, negative) <= acc,
    decreases body.len() - i,
{
    if i < body.len() {
        let d = digit_value(body[i]);
        assert(0 <= d <= 9);
        let next = if negative { acc * 10 - d } else { acc * 10 + d };
        lemma_scan_value_monotone(body, i + 1, next, negative);
    }
}

/// Scanning digits fails nowhere when the value it reaches is in range.
proof fn lemma_scan_in_range(body: Seq<char>, i: int, acc: int, negative: bool)
    requires
        0 <= i,
        digits_from(body, i),
        negative ==> acc <= 0,
        !negative ==> acc >= 0,
        i64::MIN <= scan_value(body, i, acc, negative) <= i64::MAX,
    ensures
        scan_digits(body, i, acc, negative) == Ok::<int, IntParseError>(scan_value(body, i, acc, negative)),
    decreases body.len() - i,
{
    if i < body.len() {
        let d = digit_value(body[i]);
        let next = if negative { acc * 10 - d } else { acc * 10 + d };
        lemma_scan_value_monotone(body, i + 1, next, negative);
        lemma_scan_in_range(body, i + 1, next, negative);
    }
}

/// Appending a digit scans one more step.
proof fn lemma_scan_value_push(s: Seq<char>, c: char, i: int, acc: int, negative: bool)
    requires
        0 <= i <= s.len(),
    ensures
        scan_value(s.push(c), i, acc, negative) == ({
            let v = scan_value(s, i, acc, negative);
            if negative { v * 10 - digit_value(c) } else { v * 10 + digit_value(c) }
        }),
    decreases s.len() - i,
{
    if i < s.len() {
        assert(s.push(c)[i] == s[i]);
        let next = if negative { acc * 10 - digit_value(s[i]) } else { acc * 10 + digit_value(s[i]) };
        lemma_scan_value_push(s, c, i + 1, next, negative);
    } else {
        let t = s.push(c);
        assert(t[i] == c);
        let next = if negative { acc * 10 - digit_value(c) } else { acc * 10 + digit_value(c) };
        assert(scan_value(t, i + 1, next, negative) == next);
        assert(scan_value(t, i, acc, negative) == scan_value(t, i + 1, next, negative));
    }
}

proof fn lemma_digit_char(d: nat)
    requires
        d < 10,
    ensures
        is_decimal_digit(digit_char(d)),
        digit_value(digit_char(d)) == d,
{
}

/// The decimal numeral of `m`, after any prefix, scans to `m` (or `-m`).
proof fn lemma_decimal_scans(p: Seq<char>, m: nat, negative: bool)
    ensures
        digits_from(p + decimal(m), p.len() as int),
        scan_value(p + decimal(m), p.len() as int, 0, negative) == (if negative { -m } else { m as int }),
    decreases m,
{
    if m < 10 {
        lemma_digit_char(m);
        let s = p + decimal(m);
        assert(s[p.len() as int] == digit_char(m));
        assert(s.len() == p.len() + 1);
        let next = if negative { 0 * 10 - digit_value(s[p.len() as int]) } else { 0 * 10 + digit_value(s[p.len() as int]) };
        assert(scan_value(s, (p.len() + 1) as int, next, negative) == next);
    } else {
        lemma_digit_char(m % 10);
        lemma_decimal_scans(p, m / 10, negative);
        let q = p + decimal(m / 10);
        assert(p + decimal(m) =~= q.push(digit_char(m % 10)));
        lemma_scan_value_push(q, digit_char(m % 10), p.len() as int, 0, negative);
        assert forall|k: int| p.len() <= k < (p + decimal(m)).len() implies is_decimal_digit(#[trigger] (p + decimal(m))[k]) by {
            if k < q.len() {
                assert((p + decimal(m))[k] == q[k]);
            }
        }
    }
}

proof fn lemma_decimal_nonempty(m: nat)
    ensures
        decimal(m).len() >= 1,
        is_decimal_digit(decimal(m)[0]),
    decreases m,
{
    if m < 10 {
        lemma_digit_char(m);
    } else {
        lemma_decimal_nonempty(m / 10);
    }
}

/// Reading back the decimal numeral of an `i64` gives the same number.
pub proof fn lemma_decimal_round_trip(n: i64)
    ensures
        parse_i64_spec(signed_decimal(n as int)) == Ok::<int, IntParseError>(n as int),
{
    if n < 0 {
        let m = (-(n as int)) as nat;
        let p = seq!['-'];
        lemma_decimal_scans(p, m, true);
        lemma_decimal_nonempty(m);
        lemma_scan_in_range(p + decimal(m), 1, 0, true);
        assert((p + decimal(m))[0] == '-');
    } else {
        let m = n as nat;
        let p = Seq::<char>::empty();
        lemma_decimal_scans(p, m, false);
        lemma_decimal_nonempty(m);
        assert(p + decimal(m) =~= decimal(m));
        lemma_scan_in_range(decimal(m), 0, 0, false);
    }
}

/// A JSON value as an integer field sees it: which kind of value it is,
/// with the integer or the text where it has one.
#[derive(Debug, Clone, PartialEq)]
pub enum JsonScalar {
    /// A non-negative integer number.
    PosInt(u64),
    /// A negative integer number.
    NegInt(i64),
    /// A number with a fraction or an exponent.
    Float,
    /// A string.
    Text(String),
    /// Null, a boolean, an array or an object.
    Other,
}

/// Why a JSON value could not be read as an `i64` field.
#[derive(Debug, Clone, PartialEq)]
pub enum IntegerFieldError {
    /// A number that is not an `i64`.
    ExpectedInteger,
    /// A string that is not a decimal `i64`.
    BadText(IntParseError),
    /// Neither a number nor a string.
    UnexpectedType,
}

impl IntegerFieldError {
    /// The message a deserializer reports for this failure.
    pub fn message(&self) -> (res: String)
        ensures
            res@ == self.message_spec(),
    {
        match self {
            IntegerFieldError::ExpectedInteger => String::from_str("Expected integer"),
            IntegerFieldError::BadText(e) => e.message(),
            IntegerFieldError::UnexpectedType => String::from_str("Unexpected type"),
        }
    }

    pub open spec fn message_spec(&self) -> Seq<char> {
        match self {
            IntegerFieldError::ExpectedInteger => "Expected integer"@,
            IntegerFieldError::BadText(e) => e.message_spec(),
            IntegerFieldError::UnexpectedType => "Unexpected type"@,
        }
    }
}

/// What an integer field accepts: an integer number in the `i64` range, or a
/// string holding a decimal `i64`.
pub open spec fn integer_field_spec(v: JsonScalar) -> Result<int, IntegerFieldError> {
    match v {
        JsonScalar::PosInt(u) => if u <= i64::MAX { Ok(u as int) } else { Err(IntegerFieldError::ExpectedInteger) },
        JsonScalar::NegInt(n) => Ok(n as int),
        JsonScalar::Float => Err(IntegerFieldError::ExpectedInteger),
        JsonScalar::Text(s) => match parse_i64_spec(s@) {
            Ok(n) => Ok(n),
            Err(e) => Err(IntegerFieldError::BadText(e)),
        },
        JsonScalar::Other => Err(IntegerFieldError::UnexpectedType),
    }
}

/// Reads a time or memory limit that may be written as a number or as text.
pub fn all_to_i64(v: &JsonScalar) -> (res: Result<i64, IntegerFieldError>)
    ensures
        match integer_field_spec(*v) {
            Ok(n) => res == Ok::<i64, IntegerFieldError>(n as i64),
            Err(e) => res == Err::<i64, IntegerFieldError>(e),
        },
{
    match v {
        JsonScalar::PosInt(u) => if *u <= i64::MAX as u64 { Ok(*u as i64) } else { Err(IntegerFieldError::ExpectedInteger) },
        JsonScalar::NegInt(n) => Ok(*n),
        JsonScalar::Float => Err(IntegerFieldError::ExpectedInteger),
        JsonScalar::Text(s) => match parse_i64_decimal(s.as_str()) {
            Ok(n) => Ok(n),
            Err(e) => Err(IntegerFieldError::BadText(e)),
        },
        JsonScalar::Other => Err(IntegerFieldError::UnexpectedType),
    }
}

} // verus!
