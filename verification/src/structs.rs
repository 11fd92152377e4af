//! Structs, their methods and their associated functions.

use vstd::prelude::*;
use vstd::string::StringExecFns;

verus! {

/// An account with its holder.
pub struct User {
    pub name: String,
    pub email: String,
    pub account: u64,
    pub active: bool,
}

/// A user whose account number was corrected after the first entry.
pub fn new_user() -> (user: User)
    ensures
        user.name@ == "Alex"@,
        user.email@ == "ddd@gmail.com"@,
        user.account == 3434,
        user.active,
{
    let mut user1 = User {
        email: String::from_str("ddd@gmail.com"),
        name: String::from_str("Alex"),
        account: 33,
        active: true,
    };

    user1.account = 3434;

    user1
}

/// A colour by its three components.
pub struct Color(pub i32, pub i32, pub i32);

/// A point in space.
pub struct Point(pub i32, pub i32, pub i32);

/// A rectangle by its sides.
#[derive(Debug)]
pub struct Rectangle {
    pub width: u32,
    pub height: u32,
}

impl Rectangle {
    /// Width times height.
    pub fn area(&self) -> (area: u32)
        requires
            self.width * self.height <= u32::MAX,
        ensures
            area == self.width * self.height,
    {
        self.width * self.height
    }

    /// The length of the outline: twice the sum of the sides.
    pub fn cycle(&self) -> (cycle: u32)
        requires
            (self.width + self.height) * 2 <= u32::MAX,
        ensures
            cycle == (self.width + self.height) * 2,
    {
        (self.width + self.height) * 2
    }

    /// Whether `other` fits inside with room to spare on both sides.
    pub fn can_hold(&self, other: &Rectangle) -> (fits: bool)
        ensures
            fits == (self.width > other.width && self.height > other.height),
    {
        self.width > other.width && self.height > other.height
    }

    /// The square of the given side.
    pub fn square(size: u32) -> (square: Rectangle)
        ensures
            square.width == size,
            square.height == size,
    {
        Rectangle { width: size, height: size }
    }
}

/// Width times height of a rectangle that is only borrowed.
pub fn area(rectangle: &Rectangle) -> (area: u32)
    requires
        rectangle.width * rectangle.height <= u32::MAX,
    ensures
        area == rectangle.width * rectangle.height,
{
    rectangle.width * rectangle.height
}

} // verus!
