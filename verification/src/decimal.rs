//! Decimal numerals: the text of an integer and the integer of a text.

use vstd::prelude::*;
use vstd::string::is_ascii_spec_bytes;
use vstd::utf8::is_ascii_chars;

verus! {

/// `String::push` of the standard library: the text afterwards is the text
/// before with `ch` appended as its last character.
pub assume_specification[ String::push ](s: &mut String, ch: char)
    ensures
        final(s)@ == old(s)@.push(ch),
;

/// The ASCII codes that a numeral is made of.
const ZERO: u8 = 48;

const NINE: u8 = 57;

const PLUS: u8 = 43;

const MINUS: u8 = 45;

/// Whether `c` is one of the ten ASCII digits.
pub open spec fn is_digit(c: char) -> bool {
    '0' <= c <= '9'
}

/// The character that writes the digit `d`.
pub open spec fn digit_char(d: nat) -> char
    recommends
        d < 10,
{
    (('0' as u8 + d) as u8) as char
}

/// The digit that the character `c` writes.
pub open spec fn digit_value(c: char) -> nat
    recommends
        is_digit(c),
{
    (c as u8 - '0' as u8) as nat
}

/// The decimal digits of `n`, most significant first, without leading zeros;
/// zero is written `0`.
pub open spec fn decimal_digits(n: nat) -> Seq<char>
    decreases n,
{
    if n < 10 {
        seq![digit_char(n)]
    } else {
        decimal_digits(n / 10).push(digit_char(n % 10))
    }
}

/// The decimal text of an integer: a minus sign for a negative one, then the
/// digits of its magnitude.
pub open spec fn decimal_text(n: int) -> Seq<char> {
    if n < 0 {
        seq!['-'] + decimal_digits((-n) as nat)
    } else {
        decimal_digits(n as nat)
    }
}

/// The character of one digit.
fn digit_to_char(d: u8) -> (c: char)
    requires
        d < 10,
    ensures
        c == digit_char(d as nat),
        is_digit(c),
{
    (ZERO + d) as char
}

/// Appends the decimal digits of `n` to `buf`.
pub fn push_decimal(buf: &mut String, n: u64)
    ensures
        final(buf)@ == old(buf)@ + decimal_digits(n as nat),
    decreases n,
{
    if n >= 10 {
        push_decimal(buf, n / 10);
    }
    let d: u8 = (n % 10) as u8;
    buf.push(digit_to_char(d));
}


/// The decimal text of an unsigned integer.
pub fn format_unsigned(n: u64) -> (text: String)
    ensures
        text@ == decimal_digits(n as nat),
{
    let mut text = String::new();
    push_decimal(&mut text, n);
    text
}

/// The magnitude of `n`, which always fits the unsigned type.
pub fn magnitude(n: i64) -> (m: u64)
    ensures
        m == if n < 0 { -n } else { n as int },
{
    if n < 0 {
        ((-(n + 1)) as u64) + 1
    } else {
        n as u64
    }
}

/// Appends the decimal text of `n` to `buf`.
pub fn push_signed(buf: &mut String, n: i64)
    ensures
        final(buf)@ == old(buf)@ + decimal_text(n as int),
{
    if n < 0 {
        buf.push('-');
        assert(buf@ == old(buf)@ + seq!['-']);
    }
    push_decimal(buf, magnitude(n));
}

/// The decimal text of a signed integer.
pub fn format_signed(n: i64) -> (text: String)
    ensures
        text@ == decimal_text(n as int),
{
    let mut text = String::new();
    push_signed(&mut text, n);
    text
}

/// Why a text is not the numeral of a 32-bit integer.
#[derive(Clone, Copy, Debug, PartialEq, Eq, Structural)]
pub enum ParseError {
    /// The text has no characters at all.
    Empty,
    /// The text is not an optional sign followed by one or more digits.
    InvalidDigit,
    /// The text is a numeral, but its value does not fit.
    OutOfRange,
}

/// Whether `s` is made of digits only.
pub open spec fn all_digits(s: Seq<char>) -> bool {
    forall|i: int| 0 <= i < s.len() ==> is_digit(#[trigger] s[i])
}

/// The number that a sequence of digits writes; the empty sequence writes zero.
pub open spec fn digits_value(s: Seq<char>) -> nat
    decreases s.len(),
{
    if s.len() == 0 {
        0
    } else {
        10 * digits_value(s.drop_last()) + digit_value(s.last())
    }
}

/// Whether `s` begins with a plus or a minus sign.
pub open spec fn has_sign(s: Seq<char>) -> bool {
    s.len() > 0 && (s[0] == '-' || s[0] == '+')
}

/// What follows the optional sign of `s`.
pub open spec fn numeral_digits(s: Seq<char>) -> Seq<char> {
    if has_sign(s) {
        s.subrange(1, s.len() as int)
    } else {
        s
    }
}

/// Whether `s` is a decimal numeral: an optional sign, then at least one
/// digit and nothing else.
pub open spec fn is_numeral(s: Seq<char>) -> bool {
    numeral_digits(s).len() > 0 && all_digits(numeral_digits(s))
}

/// The integer that the numeral `s` writes.
pub open spec fn numeral_value(s: Seq<char>) -> int {
    if s.len() > 0 && s[0] == '-' {
        -(digits_value(numeral_digits(s)) as int)
    } else {
        digits_value(numeral_digits(s)) as int
    }
}

/// Appending a digit never makes the value smaller.
pub proof fn lemma_digits_value_grows(s: Seq<char>, k: int)
    requires
        0 <= k < s.len(),
    ensures
        digits_value(s.subrange(0, k + 1)) == 10 * digits_value(s.subrange(0, k)) + digit_value(
            s[k],
        ),
        digits_value(s.subrange(0, k)) <= digits_value(s.subrange(0, k + 1)),
{
    assert(s.subrange(0, k + 1).drop_last() == s.subrange(0, k));
}

/// A numeral holds no character beyond ASCII.
pub proof fn lemma_numerals_are_ascii(s: Seq<char>)
    requires
        !is_ascii_chars(s),
    ensures
        !is_numeral(s),
{
    let k = choose|k: int| 0 <= k < s.len() && !('\0' <= #[trigger] s[k] <= '\u{7f}');
    if has_sign(s) {
        assert(k >= 1);
        assert(numeral_digits(s)[k - 1] == s[k]);
    } else {
        assert(numeral_digits(s)[k] == s[k]);
    }
}

/// Reads a decimal numeral as a 32-bit integer.
///
/// Succeeds exactly on the numerals whose value fits; every other text is
/// answered with the one error that describes it.
pub fn parse_i32(s: &str) -> (r: Result<i32, ParseError>)
    ensures
        match r {
            Ok(v) => is_numeral(s@) && v == numeral_value(s@),
            Err(ParseError::Empty) => s@.len() == 0,
            Err(ParseError::InvalidDigit) => s@.len() > 0 && !is_numeral(s@),
            Err(ParseError::OutOfRange) => is_numeral(s@) && !(i32::MIN <= numeral_value(s@)
                <= i32::MAX),
        },
{
    if s.is_empty() {
        return Err(ParseError::Empty);
    }
    if !s.is_ascii() {
        proof {
            lemma_numerals_are_ascii(s@);
        }
        return Err(ParseError::InvalidDigit);
    }
    proof {
        is_ascii_spec_bytes(s);
    }
    let bytes = s.as_bytes();
    let len = bytes.len();
    let first = bytes[0];
    let negative = first == MINUS;
    let start: usize = if first == MINUS || first == PLUS { 1 } else { 0 };
    if start == len {
        return Err(ParseError::InvalidDigit);
    }
    let ghost digits = numeral_digits(s@);
    let limit: u64 = 2147483648;
    let mut acc: u64 = 0;
    let mut too_big = false;
    let mut i: usize = start;
    while i < len
        invariant
            start <= i <= len,
            len == s@.len(),
            is_ascii_chars(s@),
            bytes@ == Seq::new(s@.len(), |k: int| s@[k] as u8),
            digits == numeral_digits(s@),
            digits.len() == len - start,
            limit == 2147483648,
            all_digits(digits.subrange(0, i - start)),
            !too_big ==> acc == digits_value(digits.subrange(0, i - start)) && acc <= limit,
            too_big ==> digits_value(digits.subrange(0, i - start)) > limit,
        decreases len - i,
    {
        let b = bytes[i];
        assert(digits[i - start] == s@[i as int]);
        if !(ZERO <= b && b <= NINE) {
            return Err(ParseError::InvalidDigit);
        }
        proof {
            lemma_digits_value_grows(digits, i - start);
            assert forall|j: int| 0 <= j < i + 1 - start implies is_digit(
                #[trigger] digits.subrange(0, i + 1 - start)[j],
            ) by {
                if j < i - start {
                    assert(digits.subrange(0, i - start)[j] == digits[j]);
                }
            }
        }
        if !too_big {
            let d: u64 = (b - ZERO) as u64;
            acc = acc * 10 + d;
            if acc > limit {
                too_big = true;
            }
        }
        i += 1;
    }
    assert(digits.subrange(0, len - start) == digits);
    if too_big {
        Err(ParseError::OutOfRange)
    } else if negative {
        if acc == limit {
            Ok(i32::MIN)
        } else {
            Ok(-(acc as i32))
        }
    } else if acc == limit {
        Err(ParseError::OutOfRange)
    } else {
        Ok(acc as i32)
    }
}

} // verus!
