//! Laws that tie reading a numeral to writing one.

use crate::decimal::{
    all_digits, decimal_digits, decimal_text, digit_char, digit_value, digits_value, has_sign,
    is_digit, is_numeral, numeral_digits, numeral_value,
};
use vstd::prelude::*;

verus! {

/// Whether a digit sequence is written without a needless leading zero.
pub open spec fn no_leading_zero(d: Seq<char>) -> bool {
    d.len() == 1 || (d.len() > 1 && d[0] != '0')
}

/// The digit sequence `d` without its needless leading zeros.
pub open spec fn strip_zeros(d: Seq<char>) -> Seq<char>
    decreases d.len(),
{
    if d.len() > 1 && d[0] == '0' {
        strip_zeros(d.subrange(1, d.len() as int))
    } else {
        d
    }
}

/// The normal way to write the numeral `s`: no plus sign, no needless
/// leading zeros, and no minus sign in front of zero.
pub open spec fn canonical_form(s: Seq<char>) -> Seq<char> {
    let d = strip_zeros(numeral_digits(s));
    if s.len() > 0 && s[0] == '-' && d != seq!['0'] {
        seq!['-'] + d
    } else {
        d
    }
}

/// The character of a digit is a digit character, and it writes that digit.
pub proof fn lemma_digit_char_value(d: nat)
    requires
        d < 10,
    ensures
        is_digit(digit_char(d)),
        digit_value(digit_char(d)) == d,
{
}

/// A digit character writes a digit, and it is the character of that digit.
pub proof fn lemma_digit_value_char(c: char)
    requires
        is_digit(c),
    ensures
        digit_value(c) < 10,
        digit_char(digit_value(c)) == c,
{
}

/// A single digit writes its own value.
pub proof fn lemma_single_digit(c: char)
    ensures
        digits_value(seq![c]) == digit_value(c),
{
    reveal_with_fuel(digits_value, 2);
    assert(seq![c].drop_last() =~= Seq::<char>::empty());
}

/// The digits of a number are digits, at least one, with no needless zero in
/// front, and they write that number.
pub proof fn lemma_decimal_digits(n: nat)
    ensures
        decimal_digits(n).len() > 0,
        all_digits(decimal_digits(n)),
        no_leading_zero(decimal_digits(n)),
        digits_value(decimal_digits(n)) == n,
    decreases n,
{
    lemma_digit_char_value(n % 10);
    if n < 10 {
        lemma_single_digit(digit_char(n));
    } else {
        lemma_decimal_digits(n / 10);
        let head = decimal_digits(n / 10);
        let all = decimal_digits(n);
        assert(all == head.push(digit_char(n % 10)));
        assert(all.drop_last() =~= head);
        assert(all.last() == digit_char(n % 10));
        assert(all[0] == head[0]);
        if head[0] == '0' {
            lemma_single_digit('0');
            assert(head =~= seq!['0']);
        }
    }
}

/// Writing an integer gives a numeral that reads back as that integer.
pub proof fn lemma_format_then_parse(n: int)
    ensures
        is_numeral(decimal_text(n)),
        numeral_value(decimal_text(n)) == n,
{
    if n < 0 {
        let m = (-n) as nat;
        lemma_decimal_digits(m);
        assert(numeral_digits(decimal_text(n)) =~= decimal_digits(m));
    } else {
        lemma_decimal_digits(n as nat);
        assert(!has_sign(decimal_text(n)));
    }
}

/// Digits without a needless leading zero are exactly the digits of the
/// number they write.
pub proof fn lemma_digits_of_value(d: Seq<char>)
    requires
        all_digits(d),
        no_leading_zero(d),
    ensures
        decimal_digits(digits_value(d)) == d,
    decreases d.len(),
{
    let c = d.last();
    assert(is_digit(c));
    lemma_digit_value_char(c);
    let head = d.drop_last();
    if d.len() == 1 {
        assert(d =~= seq![c]);
        lemma_single_digit(c);
        assert(decimal_digits(digits_value(d)) =~= d);
    } else {
        assert(head[0] == d[0]);
        assert forall|i: int| 0 <= i < head.len() implies is_digit(#[trigger] head[i]) by {
            assert(head[i] == d[i]);
        }
        lemma_digits_of_value(head);
        if digits_value(head) == 0 {
            assert(decimal_digits(0)[0] == '0');
        }
        let v = digits_value(d);
        assert(v / 10 == digits_value(head) && v % 10 == digit_value(c));
        assert(decimal_digits(v) =~= d);
    }
}

/// A zero in front of a digit sequence does not change its value.
pub proof fn lemma_leading_zero_value(d: Seq<char>)
    ensures
        digits_value(seq!['0'] + d) == digits_value(d),
    decreases d.len(),
{
    let z = seq!['0'] + d;
    if d.len() == 0 {
        lemma_single_digit('0');
        assert(z =~= seq!['0']);
    } else {
        lemma_leading_zero_value(d.drop_last());
        assert(z.drop_last() =~= seq!['0'] + d.drop_last());
        assert(z.last() == d.last());
    }
}

/// Stripping needless zeros keeps the digits digits and their value, and
/// leaves no needless zero.
pub proof fn lemma_strip_zeros(d: Seq<char>)
    requires
        d.len() > 0,
        all_digits(d),
    ensures
        all_digits(strip_zeros(d)),
        no_leading_zero(strip_zeros(d)),
        digits_value(strip_zeros(d)) == digits_value(d),
    decreases d.len(),
{
    if d.len() > 1 && d[0] == '0' {
        let rest = d.subrange(1, d.len() as int);
        assert forall|i: int| 0 <= i < rest.len() implies is_digit(#[trigger] rest[i]) by {
            assert(rest[i] == d[i + 1]);
        }
        lemma_strip_zeros(rest);
        lemma_leading_zero_value(rest);
        assert(seq!['0'] + rest =~= d);
    }
}

/// Reading a numeral and writing the result gives the numeral back in its
/// normal form: without a plus sign, without needless leading zeros, and
/// without a minus sign in front of zero.
pub proof fn lemma_parse_then_format(s: Seq<char>)
    requires
        is_numeral(s),
    ensures
        decimal_text(numeral_value(s)) == canonical_form(s),
{
    let d = numeral_digits(s);
    lemma_strip_zeros(d);
    lemma_digits_of_value(strip_zeros(d));
    if s[0] == '-' && strip_zeros(d) == seq!['0'] {
        lemma_single_digit('0');
    }
    if digits_value(d) == 0 {
        assert(decimal_digits(0) =~= seq!['0']);
    }
}

/// A numeral that is already in normal form is read and written back
/// unchanged.
pub proof fn lemma_canonical_round_trip(s: Seq<char>)
    requires
        is_numeral(s),
        s[0] != '+',
        no_leading_zero(numeral_digits(s)),
        !(s[0] == '-' && numeral_digits(s) == seq!['0']),
    ensures
        decimal_text(numeral_value(s)) == s,
{
    lemma_parse_then_format(s);
    if s[0] == '-' {
        assert(seq!['-'] + numeral_digits(s) =~= s);
    }
}

} // verus!
