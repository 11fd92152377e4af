//! Traits with associated types, overloaded operators and supertraits.

use std::ops::{Add, Mul};
use vstd::prelude::*;
use vstd::std_specs::ops::{AddSpec, AddSpecImpl, MulSpec};
use vstd::string::StringSliceAdditionalSpecFns;
use vstd::string::StringExecFns;
use crate::text::{decimal, i64_to_string, join, joined, repeat, repeated, texts};
use vstd::utf8::encode_utf8;

verus! {

/// Something that can be consumed for its next item.
pub trait Iterator {
    type Item;

    fn next(self) -> Option<Self::Item>;
}

/// A counter that hands itself out as its next item.
pub struct Counter<T>(pub T);

impl<T> Iterator for Counter<T> {
    type Item = Self;

    fn next(self) -> (item: Option<Self::Item>)
        ensures
            item == Some(self),
    {
        Some(self)
    }
}

/// A point with coordinates of any type that can be added.
#[derive(Debug, PartialEq)]
pub struct Point<T> {
    pub x: T,
    pub y: T,
}

impl<T: Add<Output = T>> Add for Point<T> {
    type Output = Self;

    fn add(self, other: Self) -> Self::Output {
        Point { x: self.x + other.x, y: self.y + other.y }
    }
}

impl<T: Add<Output = T>> AddSpecImpl for Point<T> {
    open spec fn obeys_add_spec() -> bool {
        T::obeys_add_spec()
    }

    open spec fn add_req(self, other: Self) -> bool {
        self.x.add_req(other.x) && self.y.add_req(other.y)
    }

    open spec fn add_spec(self, other: Self) -> Self {
        Point { x: self.x.add_spec(other.x), y: self.y.add_spec(other.y) }
    }
}

/// A length in millimetres.
#[derive(Debug, PartialEq)]
pub struct Millimeters(pub u32);

/// A length in metres.
#[derive(Debug)]
pub struct Meters(pub u32);

impl Add<Meters> for Millimeters {
    type Output = Millimeters;

    fn add(self, other: Meters) -> Millimeters {
        Millimeters(self.0 + other.0 * 1000)
    }
}

impl AddSpecImpl<Meters> for Millimeters {
    open spec fn obeys_add_spec() -> bool {
        true
    }

    /// The sum, in millimetres, has to fit.
    open spec fn add_req(self, other: Meters) -> bool {
        self.0 + other.0 * 1000 <= u32::MAX
    }

    open spec fn add_spec(self, other: Meters) -> Millimeters {
        Millimeters((self.0 + other.0 * 1000) as u32)
    }
}

/// A shape with an area measured in `T`.
pub trait HasArea<T> {
    /// Whether the area can be computed.
    spec fn area_req(&self) -> bool;

    /// The area, where it can be computed and `T` multiplies as specified.
    spec fn area_spec(&self) -> T;

    /// Whether `T` multiplies as specified.
    spec fn obeys_area_spec() -> bool;

    fn area(&self) -> (area: T)
        requires
            self.area_req(),
        ensures
            Self::obeys_area_spec() ==> area == self.area_spec(),
    ;
}

/// A square at a place, with its side.
pub struct Square<T> {
    pub x: T,
    pub y: T,
    pub side: T,
}

impl<T> HasArea<T> for Square<T> where T: Mul<Output = T> + Copy {
    open spec fn area_req(&self) -> bool {
        self.side.mul_req(self.side)
    }

    open spec fn area_spec(&self) -> T {
        self.side.mul_spec(self.side)
    }

    open spec fn obeys_area_spec() -> bool {
        T::obeys_mul_spec()
    }

    fn area(&self) -> (area: T) {
        self.side * self.side
    }
}

/// An animal whose young have a name.
pub trait Animal {
    fn baby_name() -> String;
}

/// A dog.
pub struct Dog;

impl Dog {
    /// What this dog's young is called at home.
    pub fn baby_name() -> (name: String)
        ensures
            name@ == "Spot"@,
    {
        String::from_str("Spot")
    }
}

impl Animal for Dog {
    /// What the young of any dog is called.
    fn baby_name() -> (name: String)
        ensures
            name@ == "Puppy"@,
    {
        String::from_str("Puppy")
    }
}

/// Something that can be written out as text.
pub trait ToText {
    /// The text that stands for the value.
    spec fn text(&self) -> Seq<char>;

    fn to_string(&self) -> (s: String)
        ensures
            s@ == self.text(),
    ;
}

/// The width of `text` in bytes, as far as it can be measured.
pub open spec fn byte_width(text: Seq<char>) -> nat {
    encode_utf8(text).len() as usize as nat
}

/// `text` in a frame of stars, one line per item.
pub open spec fn outline(text: Seq<char>) -> Seq<Seq<char>> {
    let width = byte_width(text);
    let border = repeated("*"@, width) + "****"@;
    let margin = "*"@ + repeated(" "@, width) + "  "@ + "*"@;
    seq![border, margin, "* "@ + text + " *"@, margin, border]
}

/// Text that can be shown in a frame of stars.
pub trait OutlinePrint: ToText {
    /// The lines of the frame around the text: a border of stars four wider
    /// than the text, an empty row, the text between stars, an empty row and
    /// the border again.
    fn outline_print(&self) -> (lines: Vec<String>)
        ensures
            texts(lines@) == outline(self.text()),
    {
        let output = self.to_string();
        let len = output.as_str().len();

        let mut border = repeat("*", len);
        border.append("****");
        let mut margin = String::from_str("*");
        margin.append(repeat(" ", len).as_str());
        margin.append("  ");
        margin.append("*");
        let mut middle = String::from_str("* ");
        middle.append(output.as_str());
        middle.append(" *");

        let mut lines: Vec<String> = Vec::new();
        lines.push(border.clone());
        lines.push(margin.clone());
        lines.push(middle);
        lines.push(margin);
        lines.push(border);
        proof {
            assert(texts(lines@) =~= outline(self.text()));
        }
        lines
    }
}

/// A point of the plane that knows how to write itself.
pub struct Pointt {
    x: i32,
    y: i32,
}

impl Pointt {
    /// The point with the coordinates `x` and `y`.
    pub fn new(x: i32, y: i32) -> (p: Pointt)
        ensures
            p.text() == "("@ + decimal(x as int) + ", "@ + decimal(y as int) + ")"@,
    {
        Pointt { x, y }
    }
}

impl ToText for Pointt {
    /// The coordinates in parentheses.
    closed spec fn text(&self) -> Seq<char> {
        "("@ + decimal(self.x as int) + ", "@ + decimal(self.y as int) + ")"@
    }

    fn to_string(&self) -> (s: String) {
        let mut s = String::from_str("(");
        s.append(i64_to_string(self.x as i64).as_str());
        s.append(", ");
        s.append(i64_to_string(self.y as i64).as_str());
        s.append(")");
        s
    }
}

impl OutlinePrint for Pointt {

}

/// A list of strings that writes itself in square brackets.
pub struct Wrapper(pub Vec<String>);

impl ToText for Wrapper {
    /// The strings, separated by commas, in square brackets.
    open spec fn text(&self) -> Seq<char> {
        "["@ + joined(texts(self.0@), ", "@) + "]"@
    }

    fn to_string(&self) -> (s: String) {
        let mut s = String::from_str("[");
        s.append(join(&self.0, ", ").as_str());
        s.append("]");
        s
    }
}

} // verus!
