//! A list of integers and its text, each item in front of its index.

use crate::decimal::{decimal_digits, decimal_text, push_decimal, push_signed};
use crate::sink::{IoError, TextSink};
use vstd::prelude::*;
use vstd::string::StringExecFns;

verus! {

/// A sequence of integers that is written with the index of each item.
#[derive(Debug)]
pub struct List(pub Vec<i32>);

/// One item with its index, as in `2: 3`.
pub open spec fn entry_text(index: nat, value: int) -> Seq<char> {
    decimal_digits(index) + ": "@ + decimal_text(value)
}

/// What stands in front of the item at `index`: a comma and a space, but for
/// the first item.
pub open spec fn separator(index: nat) -> Seq<char> {
    if index == 0 {
        Seq::<char>::empty()
    } else {
        ", "@
    }
}

/// What the item at `index` adds to the text of the list.
pub open spec fn step_text(index: nat, value: int) -> Seq<char> {
    separator(index) + entry_text(index, value)
}

/// The items with their indices, separated by commas.
pub open spec fn entries_text(items: Seq<i32>) -> Seq<char>
    decreases items.len(),
{
    if items.len() == 0 {
        Seq::<char>::empty()
    } else {
        entries_text(items.drop_last()) + step_text(
            (items.len() - 1) as nat,
            items.last() as int,
        )
    }
}

/// The text of a list: its entries in square brackets.
pub open spec fn list_text(items: Seq<i32>) -> Seq<char> {
    "["@ + entries_text(items) + "]"@
}

/// What a sink with room for `room` more characters takes of the entries
/// from item `from` on and of the closing bracket, when they are offered to
/// it piece by piece: a separator, an entry, and so on, up to the first
/// piece that does not fit.
pub open spec fn entries_within(items: Seq<i32>, from: nat, room: int) -> Seq<char>
    decreases items.len() - from,
{
    if from >= items.len() {
        if room >= 1 {
            "]"@
        } else {
            Seq::<char>::empty()
        }
    } else {
        let sep = separator(from);
        let entry = entry_text(from, items[from as int] as int);
        if sep.len() > room {
            Seq::<char>::empty()
        } else if sep.len() + entry.len() > room {
            sep
        } else {
            sep + entry + entries_within(items, from + 1, room - sep.len() - entry.len())
        }
    }
}

/// What a sink with room for `room` more characters takes of the text of a
/// list that is offered to it piece by piece, the opening bracket first.
pub open spec fn list_text_within(items: Seq<i32>, room: int) -> Seq<char> {
    if room >= 1 {
        "["@ + entries_within(items, 0, room - 1)
    } else {
        Seq::<char>::empty()
    }
}

/// The entries of the first `i + 1` items are those of the first `i`,
/// followed by the step of item `i`.
pub proof fn lemma_entries_step(items: Seq<i32>, i: int)
    requires
        0 <= i < items.len(),
    ensures
        entries_text(items.subrange(0, i + 1)) == entries_text(items.subrange(0, i)) + step_text(
            i as nat,
            items[i] as int,
        ),
{
    assert(items.subrange(0, i + 1).drop_last() =~= items.subrange(0, i));
}

/// The entries of the first `i` items begin the entries of all of them.
pub proof fn lemma_entries_prefix(items: Seq<i32>, i: int)
    requires
        0 <= i <= items.len(),
    ensures
        entries_text(items.subrange(0, i)).is_prefix_of(entries_text(items)),
    decreases items.len() - i,
{
    if i == items.len() {
        assert(items.subrange(0, i) =~= items);
    } else {
        lemma_entries_prefix(items, i + 1);
        lemma_entries_step(items, i);
    }
}

/// A beginning of a text stays one when the same head is put in front of
/// both and a tail behind the text.
pub proof fn lemma_prefix_grows(head: Seq<char>, part: Seq<char>, whole: Seq<char>, tail: Seq<char>)
    requires
        part.is_prefix_of(whole),
    ensures
        (head + part).is_prefix_of(head + whole + tail),
{
    assert(head + part =~= (head + whole + tail).subrange(0, (head + part).len() as int));
}

/// After the first `i` items, any beginning of the step of item `i` keeps
/// what was written a beginning of the whole text.
pub proof fn lemma_written_prefix(items: Seq<i32>, i: int, part: Seq<char>)
    requires
        0 <= i < items.len(),
        part.is_prefix_of(step_text(i as nat, items[i] as int)),
    ensures
        ("["@ + entries_text(items.subrange(0, i)) + part).is_prefix_of(list_text(items)),
{
    let sofar = entries_text(items.subrange(0, i));
    let next = entries_text(items.subrange(0, i + 1));
    let all = entries_text(items);
    lemma_entries_step(items, i);
    lemma_entries_prefix(items, i + 1);
    assert(sofar + part =~= next.subrange(0, (sofar + part).len() as int));
    assert(sofar + part =~= all.subrange(0, (sofar + part).len() as int));
    lemma_prefix_grows("["@, sofar + part, all, "]"@);
    assert("["@ + sofar + part =~= "["@ + (sofar + part));
}

impl List {
    /// The text of the list.
    pub open spec fn text(&self) -> Seq<char> {
        list_text(self.0@)
    }

    /// The entry of the item at `index`.
    fn entry(&self, index: usize) -> (entry: String)
        requires
            index < self.0@.len(),
        ensures
            entry@ == entry_text(index as nat, self.0@[index as int] as int),
    {
        let mut entry = String::new();
        push_decimal(&mut entry, index as u64);
        entry.append(": ");
        push_signed(&mut entry, self.0[index] as i64);
        entry
    }

    /// The text of the list.
    pub fn to_string(&self) -> (text: String)
        ensures
            text@ == self.text(),
    {
        let ghost items = self.0@;
        let mut text = String::from_str("[");
        let n = self.0.len();
        let mut count: usize = 0;
        while count < n
            invariant
                count <= n,
                n == items.len(),
                items == self.0@,
                text@ == "["@ + entries_text(items.subrange(0, count as int)),
            decreases n - count,
        {
            let ghost done = text@;
            if count != 0 {
                text.append(", ");
            }
            let entry = self.entry(count);
            text.append(entry.as_str());
            proof {
                lemma_entries_step(items, count as int);
                assert(text@ =~= done + step_text(count as nat, items[count as int] as int));
                assert(text@ =~= "["@ + entries_text(items.subrange(0, count + 1)));
            }
            count += 1;
        }
        text.append("]");
        assert(items.subrange(0, n as int) =~= items);
        text
    }

    /// Writes the text of the list to `f`, piece by piece, and stops at the
    /// first piece that `f` refuses.
    ///
    /// The writing succeeds exactly where the whole text fits. Where it does
    /// not, the pieces that `f` took before the refusal stay in it.
    pub fn fmt(&self, f: &mut TextSink) -> (r: Result<(), IoError>)
        ensures
            final(f).limit() == old(f).limit(),
            r is Ok <==> old(f).has_room(self.text().len()),
            r is Ok ==> final(f)@ == old(f)@ + self.text(),
            final(f)@ == old(f)@ + list_text_within(self.0@, old(f).limit() - old(f)@.len()),
    {
        let ghost items = self.0@;
        let ghost before = f@;
        let ghost whole = list_text(items);
        let ghost room = f.limit() - before.len();
        proof {
            reveal_strlit("[");
            reveal_strlit("]");
            assert("["@.is_prefix_of(whole));
            assert(before + Seq::<char>::empty() =~= before);
        }
        f.write_str("[")?;
        let n = self.0.len();
        let mut count: usize = 0;
        proof {
            assert(items.subrange(0, 0) =~= Seq::<i32>::empty());
            assert(list_text_within(items, room) =~= "["@ + entries_text(items.subrange(0, 0))
                + entries_within(items, 0, f.limit() - f@.len()));
        }
        while count < n
            invariant
                count <= n,
                n == items.len(),
                items == self.0@,
                before == old(f)@,
                whole == list_text(items),
                room == old(f).limit() - before.len(),
                f.limit() == old(f).limit(),
                f@ == before + ("["@ + entries_text(items.subrange(0, count as int))),
                f@.len() <= f.limit(),
                list_text_within(items, room) == "["@ + entries_text(
                    items.subrange(0, count as int),
                ) + entries_within(items, count as nat, f.limit() - f@.len()),
            decreases n - count,
        {
            let ghost done = "["@ + entries_text(items.subrange(0, count as int));
            let ghost sep = separator(count as nat);
            let ghost step = step_text(count as nat, items[count as int] as int);
            proof {
                assert(sep.is_prefix_of(step));
                lemma_written_prefix(items, count as int, sep);
                lemma_written_prefix(items, count as int, step);
                lemma_entries_step(items, count as int);
                assert(done + Seq::<char>::empty() =~= done);
            }
            if count != 0 {
                f.write_str(", ")?;
            }
            assert(f@ =~= before + (done + sep));
            let entry = self.entry(count);
            assert(done + sep + entry@ =~= done + step);
            f.write_str(entry.as_str())?;
            proof {
                assert(f@ =~= before + ("["@ + entries_text(items.subrange(0, count + 1))));
                assert(list_text_within(items, room) =~= "["@ + entries_text(
                    items.subrange(0, count + 1),
                ) + entries_within(items, (count + 1) as nat, f.limit() - f@.len()));
            }
            count += 1;
        }
        proof {
            reveal_strlit("]");
            assert(items.subrange(0, n as int) =~= items);
            assert(before + ("["@ + entries_text(items)) + "]"@ =~= before + whole);
            assert(("["@ + entries_text(items)).is_prefix_of(whole));
            assert(before + ("["@ + entries_text(items)) + Seq::<char>::empty() =~= before + (
                "["@ + entries_text(items)));
        }
        f.write_str("]")
    }
}

} // verus!
