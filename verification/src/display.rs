//! Values with a text of their own making.

use crate::decimal::{decimal_text, push_signed};
use crate::sink::{IoError, TextSink};
use vstd::prelude::*;
use vstd::string::StringExecFns;

verus! {

/// A single integer, written as it is.
#[derive(Clone, Copy, Debug, PartialEq, Eq, Structural)]
pub struct Structure(pub i32);

/// Two integers, written in round brackets with a space between them.
#[derive(Clone, Copy, Debug, PartialEq, Eq, Structural)]
pub struct MinMax(pub i64, pub i64);

impl Structure {
    /// The text of the value: the decimal text of its integer.
    pub open spec fn text(&self) -> Seq<char> {
        decimal_text(self.0 as int)
    }

    /// The text of the value.
    pub fn to_string(&self) -> (text: String)
        ensures
            text@ == self.text(),
    {
        let mut text = String::new();
        push_signed(&mut text, self.0 as i64);
        text
    }

    /// Writes the text of the value to `f`, as a whole or not at all.
    pub fn fmt(&self, f: &mut TextSink) -> (r: Result<(), IoError>)
        ensures
            final(f).limit() == old(f).limit(),
            r is Ok <==> old(f).has_room(self.text().len()),
            r is Ok ==> final(f)@ == old(f)@ + self.text(),
            r is Err ==> final(f)@ == old(f)@,
    {
        let text = self.to_string();
        f.write_str(text.as_str())
    }
}

impl MinMax {
    /// The text of the pair, as in `(-3 3)`.
    pub open spec fn text(&self) -> Seq<char> {
        "("@ + decimal_text(self.0 as int) + " "@ + decimal_text(self.1 as int) + ")"@
    }

    /// The text of the pair.
    pub fn to_string(&self) -> (text: String)
        ensures
            text@ == self.text(),
    {
        let mut text = String::from_str("(");
        push_signed(&mut text, self.0);
        text.append(" ");
        push_signed(&mut text, self.1);
        text.append(")");
        text
    }

    /// Writes the text of the pair to `f`, as a whole or not at all.
    pub fn fmt(&self, f: &mut TextSink) -> (r: Result<(), IoError>)
        ensures
            final(f).limit() == old(f).limit(),
            r is Ok <==> old(f).has_room(self.text().len()),
            r is Ok ==> final(f)@ == old(f)@ + self.text(),
            r is Err ==> final(f)@ == old(f)@,
    {
        let text = self.to_string();
        f.write_str(text.as_str())
    }
}

} // verus!
