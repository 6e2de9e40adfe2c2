//! What there is to say about a borrowed slice of integers.

use crate::decimal::{decimal_digits, decimal_text, push_decimal, push_signed};
use vstd::prelude::*;
use vstd::string::StringExecFns;

verus! {

/// The items in decimal, separated by a comma and a space.
pub open spec fn joined_text(items: Seq<i32>) -> Seq<char>
    decreases items.len(),
{
    if items.len() == 0 {
        Seq::<char>::empty()
    } else if items.len() == 1 {
        decimal_text(items[0] as int)
    } else {
        joined_text(items.drop_last()) + ", "@ + decimal_text(items.last() as int)
    }
}

/// The items in square brackets, as in `[1, 2, 3]`.
pub open spec fn bracketed_text(items: Seq<i32>) -> Seq<char> {
    "["@ + joined_text(items) + "]"@
}

/// The line that names the first item.
pub open spec fn first_line(items: Seq<i32>) -> Seq<char>
    recommends
        items.len() > 0,
{
    "first element of the slice: "@ + decimal_text(items[0] as int)
}

/// The line that tells how many items there are.
pub open spec fn count_line(items: Seq<i32>) -> Seq<char> {
    "the slice has "@ + decimal_digits(items.len()) + " elements"@
}

/// The line that lists the items.
pub open spec fn elements_line(items: Seq<i32>) -> Seq<char> {
    "slice elements: "@ + bracketed_text(items)
}

/// Appends the items of `slice` in square brackets to `buf`.
pub fn push_bracketed(buf: &mut String, slice: &[i32])
    ensures
        final(buf)@ == old(buf)@ + bracketed_text(slice@),
{
    let ghost before = buf@;
    buf.append("[");
    let n = slice.len();
    let mut i: usize = 0;
    while i < n
        invariant
            i <= n,
            n == slice@.len(),
            buf@ == before + ("["@ + joined_text(slice@.subrange(0, i as int))),
        decreases n - i,
    {
        let ghost done = "["@ + joined_text(slice@.subrange(0, i as int));
        let ghost item = decimal_text(slice@[i as int] as int);
        if i != 0 {
            buf.append(", ");
        }
        push_signed(buf, slice[i] as i64);
        proof {
            let next = slice@.subrange(0, i + 1);
            assert(next.drop_last() =~= slice@.subrange(0, i as int));
            assert(next.last() == slice@[i as int]);
            if i == 0 {
                assert(buf@ =~= before + ("["@ + joined_text(next)));
            } else {
                assert(buf@ =~= before + done + ", "@ + item);
                assert(buf@ =~= before + ("["@ + joined_text(next)));
            }
        }
        i += 1;
    }
    buf.append("]");
    proof {
        assert(slice@.subrange(0, n as int) =~= slice@);
        assert(buf@ =~= before + bracketed_text(slice@));
    }
}

/// The line for position `i` of a slice: the item there, or the news that
/// there is none.
pub open spec fn index_line(items: Seq<i32>, i: nat) -> Seq<char> {
    decimal_digits(i) + ": "@ + if i < items.len() {
        decimal_text(items[i as int] as int)
    } else {
        "out of bounds"@
    }
}

/// Looks at position `i` of `slice` without going past its end.
pub fn describe_index(slice: &[i32], i: usize) -> (line: String)
    ensures
        line@ == index_line(slice@, i as nat),
{
    let mut line = String::new();
    push_decimal(&mut line, i as u64);
    line.append(": ");
    if i < slice.len() {
        push_signed(&mut line, slice[i] as i64);
    } else {
        line.append("out of bounds");
    }
    line
}

/// Describes a slice that is not empty in three lines: its first item, how
/// many items it has, and all of them.
pub fn analyze_slice(slice: &[i32]) -> (lines: Vec<String>)
    requires
        slice@.len() > 0,
    ensures
        lines@.len() == 3,
        lines@[0]@ == first_line(slice@),
        lines@[1]@ == count_line(slice@),
        lines@[2]@ == elements_line(slice@),
{
    let mut first = String::from_str("first element of the slice: ");
    push_signed(&mut first, slice[0] as i64);
    let mut count = String::from_str("the slice has ");
    push_decimal(&mut count, slice.len() as u64);
    count.append(" elements");
    let mut elements = String::from_str("slice elements: ");
    push_bracketed(&mut elements, slice);
    let mut lines: Vec<String> = Vec::new();
    lines.push(first);
    lines.push(count);
    lines.push(elements);
    lines
}

} // verus!
