//! Branching on values: colours, temperatures, ages and plain numbers, each
//! with the sentence that describes it.

use crate::decimal::{decimal_digits, decimal_text, push_decimal, push_signed};
use vstd::prelude::*;
use vstd::string::StringExecFns;

verus! {

/// A colour, by name or by its parts in one of several colour models.
#[derive(Clone, Copy, Debug, PartialEq, Eq, Structural)]
pub enum Color {
    Red,
    Blue,
    Green,
    RGB(u32, u32, u32),
    HSV(u32, u32, u32),
    HSL(u32, u32, u32),
    CMY(u32, u32, u32),
    CMYK(u32, u32, u32, u32),
}

/// A temperature on one of two scales.
#[derive(Clone, Copy, Debug, PartialEq, Eq, Structural)]
pub enum Temperature {
    Celsius(i32),
    Farenheit(i32),
}

/// Three numbers, each behind its label.
pub open spec fn labelled_triple(
    first: Seq<char>,
    a: u32,
    second: Seq<char>,
    b: u32,
    third: Seq<char>,
    c: u32,
) -> Seq<char> {
    first + decimal_digits(a as nat) + second + decimal_digits(b as nat) + third + decimal_digits(
        c as nat,
    )
}

/// Three numbers, each behind its label.
fn format_triple(first: &str, a: u32, second: &str, b: u32, third: &str, c: u32) -> (text: String)
    ensures
        text@ == labelled_triple(first@, a, second@, b, third@, c),
{
    let mut text = String::from_str(first);
    push_decimal(&mut text, a as u64);
    text.append(second);
    push_decimal(&mut text, b as u64);
    text.append(third);
    push_decimal(&mut text, c as u64);
    text
}

impl Color {
    /// The sentence that describes the colour.
    pub open spec fn description(&self) -> Seq<char> {
        match *self {
            Color::Red => "The color is red"@,
            Color::Blue => "The color is blue"@,
            Color::Green => "The color is green"@,
            Color::RGB(r, g, b) => labelled_triple("Red: "@, r, ", Green: "@, g, ", Blue: "@, b),
            Color::HSV(h, s, v) => labelled_triple(
                "Hue: "@,
                h,
                ", Saturation: "@,
                s,
                ", value: "@,
                v,
            ),
            Color::HSL(h, s, l) => labelled_triple(
                "Hue: "@,
                h,
                ", Saturation: "@,
                s,
                ", Lightness: "@,
                l,
            ),
            Color::CMY(c, m, y) => labelled_triple(
                "Cyan: "@,
                c,
                ", Magenta: "@,
                m,
                ", Yellow: "@,
                y,
            ),
            Color::CMYK(c, m, y, k) => labelled_triple(
                "Cyan: "@,
                c,
                ", Magenta: "@,
                m,
                ", Yellow: "@,
                y,
            ) + ", key (black): "@ + decimal_digits(k as nat),
        }
    }

    /// Describes the colour: by its name, or by the parts of its model.
    pub fn describe(&self) -> (text: String)
        ensures
            text@ == self.description(),
    {
        match *self {
            Color::Red => String::from_str("The color is red"),
            Color::Blue => String::from_str("The color is blue"),
            Color::Green => String::from_str("The color is green"),
            Color::RGB(r, g, b) => format_triple("Red: ", r, ", Green: ", g, ", Blue: ", b),
            Color::HSV(h, s, v) => format_triple("Hue: ", h, ", Saturation: ", s, ", value: ", v),
            Color::HSL(h, s, l) => format_triple(
                "Hue: ",
                h,
                ", Saturation: ",
                s,
                ", Lightness: ",
                l,
            ),
            Color::CMY(c, m, y) => format_triple("Cyan: ", c, ", Magenta: ", m, ", Yellow: ", y),
            Color::CMYK(c, m, y, k) => {
                let mut text = format_triple("Cyan: ", c, ", Magenta: ", m, ", Yellow: ", y);
                text.append(", key (black): ");
                push_decimal(&mut text, k as u64);
                text
            },
        }
    }
}

impl Temperature {
    /// The sentence that describes the temperature.
    pub open spec fn description(&self) -> Seq<char> {
        match *self {
            Temperature::Celsius(t) => decimal_text(t as int) + if t > 30 {
                "C is above 30 Celsius"@
            } else {
                "C is below 30 Celsius"@
            },
            Temperature::Farenheit(t) => decimal_text(t as int) + if t > 86 {
                "F is above 86 Farenheit"@
            } else {
                "F is below 86 Farenheit"@
            },
        }
    }

    /// Describes the temperature as above the mark of its scale, or as below
    /// it; the mark itself counts as below.
    pub fn describe(&self) -> (text: String)
        ensures
            text@ == self.description(),
    {
        let mut text = String::new();
        match *self {
            Temperature::Celsius(t) => {
                push_signed(&mut text, t as i64);
                if t > 30 {
                    text.append("C is above 30 Celsius");
                } else {
                    text.append("C is below 30 Celsius");
                }
            },
            Temperature::Farenheit(t) => {
                push_signed(&mut text, t as i64);
                if t > 86 {
                    text.append("F is above 86 Farenheit");
                } else {
                    text.append("F is below 86 Farenheit");
                }
            },
        }
        text
    }
}

/// The age that the examples speak of.
pub fn age() -> (years: u32)
    ensures
        years == 15,
{
    15
}

/// What a person of the given age says of themselves.
pub open spec fn age_description(years: u32) -> Seq<char> {
    if years == 0 {
        "I haven't celebrated my first birthday yet"@
    } else if years <= 12 {
        "I'm a child of age: "@ + decimal_digits(years as nat)
    } else if years <= 19 {
        "I'm a teen of age: "@ + decimal_digits(years as nat)
    } else {
        "I'm an old person of age: "@ + decimal_digits(years as nat)
    }
}

/// Describes a person by their age: not yet one, a child up to twelve, a teen
/// up to nineteen, and old after that.
pub fn describe_age(years: u32) -> (text: String)
    ensures
        text@ == age_description(years),
{
    if years == 0 {
        return String::from_str("I haven't celebrated my first birthday yet");
    }
    let mut text = if years <= 12 {
        String::from_str("I'm a child of age: ")
    } else if years <= 19 {
        String::from_str("I'm a teen of age: ")
    } else {
        String::from_str("I'm an old person of age: ")
    };
    push_decimal(&mut text, years as u64);
    text
}


/// The sentence that tells the sign of `n`.
pub open spec fn sign_description(n: i32) -> Seq<char> {
    decimal_text(n as int) + if n < 0 {
        " is negative"@
    } else if n > 0 {
        " is positive"@
    } else {
        " is zero"@
    }
}

/// Tells whether `n` is negative, positive or zero.
pub fn describe_sign(n: i32) -> (text: String)
    ensures
        text@ == sign_description(n),
{
    let mut text = String::new();
    push_signed(&mut text, n as i64);
    if n < 0 {
        text.append(" is negative");
    } else if n > 0 {
        text.append(" is positive");
    } else {
        text.append(" is zero");
    }
    text
}

/// Whether `n` has a single digit.
pub open spec fn is_small(n: i32) -> bool {
    -10 < n < 10
}

/// Half of `n`, rounded towards zero.
pub open spec fn half(n: i32) -> int {
    if n >= 0 {
        n / 2
    } else {
        -((-n) / 2)
    }
}

/// Brings `n` nearer to the middle sizes: a number of a single digit is
/// multiplied by ten, any other is halved, rounding towards zero.
pub fn rescale(n: i32) -> (scaled: i32)
    ensures
        is_small(n) ==> scaled == 10 * n,
        !is_small(n) ==> scaled == half(n),
{
    if n < 10 && n > -10 {
        10 * n
    } else {
        n / 2
    }
}

/// What there is to say about `number`: one is named, the primes below
/// fourteen are called primes, the others from thirteen to nineteen are
/// teens, and the rest is nothing special.
pub open spec fn number_description(number: i32) -> Seq<char> {
    if number == 1 {
        "One"@
    } else if number == 2 || number == 3 || number == 5 || number == 7 || number == 11 || number
        == 13 {
        "This is a prime"@
    } else if 13 <= number <= 19 {
        "A teen"@
    } else {
        "Nothing special"@
    }
}

/// Says what there is to say about `number`.
pub fn describe_number(number: i32) -> (text: String)
    ensures
        text@ == number_description(number),
{
    if number == 1 {
        String::from_str("One")
    } else if number == 2 || number == 3 || number == 5 || number == 7 || number == 11 || number
        == 13 {
        String::from_str("This is a prime")
    } else if 13 <= number && number <= 19 {
        String::from_str("A teen")
    } else {
        String::from_str("Nothing special")
    }
}

/// What there is to say about a triple, going by its first and last part;
/// the first rule that fits decides.
pub open spec fn triple_description(triple: (i32, i32, i32)) -> Seq<char> {
    if triple.0 == 0 {
        "First is `0`, `y` is "@ + decimal_text(triple.1 as int) + ", and `z` is "@ + decimal_text(
            triple.2 as int,
        )
    } else if triple.0 == 1 {
        "First is `1` and the rest doesn't matter"@
    } else if triple.2 == 2 {
        "last is `2` and the rest doesn't matter"@
    } else if triple.0 == 3 && triple.2 == 4 {
        "First is `3`, last is `4`, and the rest doesn't matter"@
    } else {
        "It doesn't matter what they are"@
    }
}

/// Says what there is to say about a triple.
pub fn describe_triple(triple: (i32, i32, i32)) -> (text: String)
    ensures
        text@ == triple_description(triple),
{
    let (first, second, third) = triple;
    if first == 0 {
        let mut text = String::from_str("First is `0`, `y` is ");
        push_signed(&mut text, second as i64);
        text.append(", and `z` is ");
        push_signed(&mut text, third as i64);
        text
    } else if first == 1 {
        String::from_str("First is `1` and the rest doesn't matter")
    } else if third == 2 {
        String::from_str("last is `2` and the rest doesn't matter")
    } else if first == 3 && third == 4 {
        String::from_str("First is `3`, last is `4`, and the rest doesn't matter")
    } else {
        String::from_str("It doesn't matter what they are")
    }
}


/// What there is to say about an array of three, going by its first item;
/// the first rule that fits decides.
pub open spec fn array_description(array: [i32; 3]) -> Seq<char> {
    let second = decimal_text(array[1] as int);
    let third = decimal_text(array[2] as int);
    if array[0] == 0 {
        "array[0] = 0, array[1] = "@ + second + ", array[2] = "@ + third
    } else if array[0] == 1 {
        "array[0] = 1, array[2] = "@ + third + " and array[1] was ignored"@
    } else if array[0] == -1 {
        "array[0] = -1, array[1] = "@ + second + " and all the other ones were ignored"@
    } else if array[0] == 3 {
        "array[0] = 3, array[1] = "@ + second + " and the other elements were ["@ + third + "]"@
    } else {
        "array[0] = "@ + decimal_text(array[0] as int) + ", middle = ["@ + second
            + "], array[2] = "@ + third
    }
}

/// Says what there is to say about an array of three.
pub fn describe_array(array: [i32; 3]) -> (text: String)
    ensures
        text@ == array_description(array),
{
    let first = array[0];
    let second = array[1];
    let third = array[2];
    let mut text = String::new();
    if first == 0 {
        text.append("array[0] = 0, array[1] = ");
        push_signed(&mut text, second as i64);
        text.append(", array[2] = ");
        push_signed(&mut text, third as i64);
    } else if first == 1 {
        text.append("array[0] = 1, array[2] = ");
        push_signed(&mut text, third as i64);
        text.append(" and array[1] was ignored");
    } else if first == -1 {
        text.append("array[0] = -1, array[1] = ");
        push_signed(&mut text, second as i64);
        text.append(" and all the other ones were ignored");
    } else if first == 3 {
        text.append("array[0] = 3, array[1] = ");
        push_signed(&mut text, second as i64);
        text.append(" and the other elements were [");
        push_signed(&mut text, third as i64);
        text.append("]");
    } else {
        text.append("array[0] = ");
        push_signed(&mut text, first as i64);
        text.append(", middle = [");
        push_signed(&mut text, second as i64);
        text.append("], array[2] = ");
        push_signed(&mut text, third as i64);
    }
    text
}

/// A pair of numbers and a third one beside it.
#[derive(Clone, Copy, Debug)]
pub struct Foo {
    pub x: (u32, u32),
    pub y: u32,
}

impl Foo {
    /// What there is to say about the value: of `y` and the second of `x`
    /// where the first of `x` is one, else of `x` where `y` is two, else of
    /// `y` alone.
    pub open spec fn description(&self) -> Seq<char> {
        if self.x.0 == 1 {
            "First of x is 1, b is "@ + decimal_digits(self.x.1 as nat) + ", y is "@
                + decimal_digits(self.y as nat)
        } else if self.y == 2 {
            "y is 2, i = ("@ + decimal_digits(self.x.0 as nat) + ", "@ + decimal_digits(
                self.x.1 as nat,
            ) + ")"@
        } else {
            "y = "@ + decimal_digits(self.y as nat) + ", we don-t care about x"@
        }
    }

    /// Says what there is to say about the value.
    pub fn describe(&self) -> (text: String)
        ensures
            text@ == self.description(),
    {
        let mut text = String::new();
        if self.x.0 == 1 {
            text.append("First of x is 1, b is ");
            push_decimal(&mut text, self.x.1 as u64);
            text.append(", y is ");
            push_decimal(&mut text, self.y as u64);
        } else if self.y == 2 {
            text.append("y is 2, i = (");
            push_decimal(&mut text, self.x.0 as u64);
            text.append(", ");
            push_decimal(&mut text, self.x.1 as u64);
            text.append(")");
        } else {
            text.append("y = ");
            push_decimal(&mut text, self.y as u64);
            text.append(", we don-t care about x");
        }
        text
    }
}

} // verus!
