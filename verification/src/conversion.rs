//! Conversions between integers and types built on them.

use crate::decimal::{decimal_text, push_signed};
use crate::sink::{IoError, TextSink};
use vstd::prelude::*;
use vstd::std_specs::convert::{FromSpecImpl, TryFromSpecImpl};
use vstd::string::StringExecFns;

verus! {

/// A plain wrapper around an integer; every integer converts into one.
#[derive(Clone, Copy, Debug, PartialEq, Eq, Structural)]
pub struct Number {
    pub value: i32,
}

impl From<i32> for Number {
    /// Wraps the integer as it is.
    fn from(item: i32) -> (number: Number)
        ensures
            number.value == item,
    {
        Number { value: item }
    }
}

impl FromSpecImpl<i32> for Number {
    open spec fn obeys_from_spec() -> bool {
        true
    }

    open spec fn from_spec(item: i32) -> Number {
        Number { value: item }
    }
}

/// The answer to an integer that the target type cannot hold.
#[derive(Clone, Copy, Debug, PartialEq, Eq, Structural)]
pub struct ConversionError;

/// An integer that is known to be even.
#[derive(Clone, Copy, Debug, PartialEq, Eq, Structural)]
pub struct EvenNumber(i32);

impl View for EvenNumber {
    type V = int;

    closed spec fn view(&self) -> int {
        self.0 as int
    }
}

impl EvenNumber {
    #[verifier::type_invariant]
    spec fn is_even(self) -> bool {
        self.0 % 2 == 0
    }

    /// The even integer inside.
    pub fn value(&self) -> (v: i32)
        ensures
            v == self@,
            v % 2 == 0,
    {
        proof {
            use_type_invariant(self);
        }
        self.0
    }
}

impl TryFrom<i32> for EvenNumber {
    type Error = ConversionError;

    /// Accepts the even integers and no others.
    fn try_from(value: i32) -> (r: Result<EvenNumber, ConversionError>)
        ensures
            r is Ok <==> value % 2 == 0,
            r is Ok ==> r->Ok_0@ == value,
    {
        if value % 2 == 0 {
            Ok(EvenNumber(value))
        } else {
            Err(ConversionError)
        }
    }
}

impl TryFromSpecImpl<i32> for EvenNumber {
    open spec fn obeys_try_from_spec() -> bool {
        true
    }

    closed spec fn try_from_spec(value: i32) -> Result<EvenNumber, ConversionError> {
        if value % 2 == 0 {
            Ok(EvenNumber(value))
        } else {
            Err(ConversionError)
        }
    }
}

/// A circle on the integer grid.
#[derive(Clone, Copy, Debug, PartialEq, Eq, Structural)]
pub struct Circle {
    pub radius: i32,
}

impl Circle {
    /// The text that describes the circle.
    pub open spec fn text(&self) -> Seq<char> {
        "Circle of radius "@ + decimal_text(self.radius as int)
    }

    /// Describes the circle by its radius.
    pub fn to_string(&self) -> (text: String)
        ensures
            text@ == self.text(),
    {
        let mut text = String::from_str("Circle of radius ");
        push_signed(&mut text, self.radius as i64);
        text
    }

    /// Writes the description to `f`, as a whole or not at all.
    pub fn fmt(&self, f: &mut TextSink) -> (r: Result<(), IoError>)
        ensures
            final(f).limit() == old(f).limit(),
            r is Ok <==> old(f).has_room(self.text().len()),
            r is Ok ==> final(f)@ == old(f)@ + self.text(),
            r is Err ==> final(f)@ == old(f)@,
    {
        let text = self.to_string();
        f.write_str(text.as_str())
    }
}

} // verus!
