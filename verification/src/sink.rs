//! A bounded place to write text to, and the error of writing past its end.

use vstd::prelude::*;
use vstd::string::{StrSliceExecFns, StringExecFns};

verus! {

/// The answer of a sink that could not take what was written to it.
#[derive(Clone, Copy, Debug, PartialEq, Eq, Structural)]
pub struct IoError;

/// A sink that collects text up to a fixed number of characters.
pub struct TextSink {
    text: String,
    limit: usize,
}

impl View for TextSink {
    type V = Seq<char>;

    /// The text collected so far.
    closed spec fn view(&self) -> Seq<char> {
        self.text@
    }
}

impl TextSink {
    /// The number of characters that the sink can hold in all.
    pub closed spec fn limit(&self) -> nat {
        self.limit as nat
    }

    /// Whether a text of `len` more characters still fits.
    pub open spec fn has_room(&self, len: nat) -> bool {
        self@.len() + len <= self.limit()
    }

    /// An empty sink that takes up to `limit` characters.
    pub fn with_limit(limit: usize) -> (sink: TextSink)
        ensures
            sink@ == Seq::<char>::empty(),
            sink.limit() == limit,
    {
        TextSink { text: String::new(), limit }
    }

    /// Writes `piece` as a whole or not at all: it is appended where it
    /// fits, and refused, with the sink unchanged, where it does not.
    pub fn write_str(&mut self, piece: &str) -> (r: Result<(), IoError>)
        ensures
            final(self).limit() == old(self).limit(),
            r is Ok <==> old(self).has_room(piece@.len()),
            r is Ok ==> final(self)@ == old(self)@ + piece@,
            r is Err ==> final(self)@ == old(self)@,
    {
        let used = self.text.as_str().unicode_len();
        let len = piece.unicode_len();
        if used <= self.limit && len <= self.limit - used {
            self.text.append(piece);
            Ok(())
        } else {
            Err(IoError)
        }
    }

    /// The text collected so far.
    pub fn as_str(&self) -> (text: &str)
        ensures
            text@ == self@,
    {
        self.text.as_str()
    }

    /// Ends the writing and hands out the text.
    pub fn into_string(self) -> (text: String)
        ensures
            text@ == self@,
    {
        self.text
    }
}

} // verus!
