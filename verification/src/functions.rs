//! Divisibility and the fizzbuzz game.

use crate::decimal::{decimal_digits, decimal_text, digit_char, push_decimal, push_signed};
use vstd::prelude::*;
use vstd::string::StringExecFns;

verus! {

/// Whether `rhs` divides `lhs`; nothing is divisible by zero.
pub open spec fn divides(lhs: nat, rhs: nat) -> bool {
    rhs != 0 && lhs % rhs == 0
}

/// Tells whether `lhs` is a multiple of `rhs`. Zero divides nothing.
pub fn is_divisible_by(lhs: u32, rhs: u32) -> (r: bool)
    ensures
        r == divides(lhs as nat, rhs as nat),
{
    if rhs == 0 {
        return false;
    }
    lhs % rhs == 0
}

/// What the game says for `n`: `fizzbuzz` for a multiple of fifteen, `fizz`
/// for another multiple of three, `buzz` for another multiple of five, and
/// the number itself in decimal for the rest.
pub open spec fn fizzbuzz_text(n: nat) -> Seq<char> {
    if n % 15 == 0 {
        "fizzbuzz"@
    } else if n % 3 == 0 {
        "fizz"@
    } else if n % 5 == 0 {
        "buzz"@
    } else {
        decimal_digits(n)
    }
}

/// The line of the game for `n`.
pub fn fizzbuzz(n: u32) -> (line: String)
    ensures
        line@ == fizzbuzz_text(n as nat),
{
    if is_divisible_by(n, 15) {
        String::from_str("fizzbuzz")
    } else if is_divisible_by(n, 3) {
        String::from_str("fizz")
    } else if is_divisible_by(n, 5) {
        String::from_str("buzz")
    } else {
        let mut line = String::new();
        push_decimal(&mut line, n as u64);
        line
    }
}

/// The lines of the game for `1`, `2`, and so on up to `n`, in that order.
pub fn fizzbuzz_to(n: u32) -> (lines: Vec<String>)
    ensures
        lines@.len() == n,
        forall|i: int| 0 <= i < n ==> (#[trigger] lines@[i])@ == fizzbuzz_text((i + 1) as nat),
{
    let mut lines: Vec<String> = Vec::new();
    let mut i: u32 = 0;
    while i < n
        invariant
            i <= n,
            lines@.len() == i,
            forall|k: int| 0 <= k < i ==> (#[trigger] lines@[k])@ == fizzbuzz_text((k + 1) as nat),
        decreases n - i,
    {
        i += 1;
        lines.push(fizzbuzz(i));
    }
    lines
}

/// Two integers, each in a box of its own.
#[derive(Debug)]
pub struct Pair(pub Box<i32>, pub Box<i32>);

impl Pair {
    /// The line that tells of the pair's end.
    pub open spec fn farewell(&self) -> Seq<char> {
        "Destroying Pair ("@ + decimal_text(*self.0 as int) + ", "@ + decimal_text(*self.1 as int)
            + ")"@
    }

    /// Takes the pair apart for good and tells what it held.
    pub fn destroy(self) -> (line: String)
        ensures
            line@ == self.farewell(),
    {
        let Pair(first, second) = self;
        let mut line = String::from_str("Destroying Pair (");
        push_signed(&mut line, *first as i64);
        line.append(", ");
        push_signed(&mut line, *second as i64);
        line.append(")");
        line
    }
}

/// The four answers of the game never coincide: a word is given exactly on
/// its multiples, and every other number is answered by its own decimal text.
pub proof fn lemma_fizzbuzz_classes(n: nat)
    ensures
        fizzbuzz_text(n) == "fizzbuzz"@ <==> n % 15 == 0,
        fizzbuzz_text(n) == "fizz"@ <==> n % 3 == 0 && n % 5 != 0,
        fizzbuzz_text(n) == "buzz"@ <==> n % 5 == 0 && n % 3 != 0,
        fizzbuzz_text(n) == decimal_digits(n) <==> n % 3 != 0 && n % 5 != 0,
{
    reveal_strlit("fizzbuzz");
    reveal_strlit("fizz");
    reveal_strlit("buzz");
    let last = digit_char(n % 10);
    assert(decimal_digits(n).last() == last);
    assert(last != 'z');
    assert("fizzbuzz"@.last() == 'z' && "fizz"@.last() == 'z' && "buzz"@.last() == 'z');
    assert("fizzbuzz"@.len() == 8 && "fizz"@.len() == 4 && "buzz"@.len() == 4);
    assert("fizz"@[0] == 'f' && "buzz"@[0] == 'b');
}

} // verus!
