//! Enumerations and the ways to take them apart.

use vstd::prelude::*;

verus! {

/// A request, in four shapes.
#[derive(Debug)]
pub enum Message {
    Quit,
    Move { x: i32, y: i32 },
    Write(String),
    ChangeColor(i32, i32, i32),
}

impl Message {
    /// What calling on a message announces, whichever its shape.
    pub fn call(&self) -> (announcement: &'static str)
        ensures
            announcement@ == "Call Message"@,
    {
        "Call Message"
    }
}

/// A number that is there, a text that is there, and a number that is not.
pub fn option_ex() {
    let _some_number: Option<i32> = Some(5);
    let _some_string: Option<&str> = Some("a string");
    let _absent_number: Option<i32> = None;
    assert(_some_number is Some && _absent_number is None);
}

/// A state that mints quarters of its own.
#[derive(Clone, Copy, Debug, PartialEq, Eq)]
pub enum UsState {
    Alabama,
    Alaska,
}

/// A coin; a quarter names the state it was minted for.
#[derive(Clone, Copy, Debug, PartialEq, Eq)]
pub enum Coin {
    Penny,
    Nickel,
    Dime,
    Quarter(UsState),
}

/// What `coin` counts for.
pub open spec fn cents(coin: Coin) -> int {
    match coin {
        Coin::Nickel => 3,
        Coin::Dime => 5,
        Coin::Quarter(_) => 24,
        _ => 0,
    }
}

/// Looks up what a coin counts for.
pub fn value_in_cents(coin: Coin) -> (value: u32)
    ensures
        value == cents(coin),
{
    match coin {
        Coin::Nickel => 3,
        Coin::Dime => 5,
        Coin::Quarter(_state) => 24,
        _ => 0,
    }
}

/// The successor of the number in `x`, if there is one in it.
pub fn plus_one(x: Option<i32>) -> (y: Option<i32>)
    requires
        x matches Some(i) ==> i < i32::MAX,
    ensures
        y == match x {
            Some(i) => Some((i + 1) as i32),
            None => None,
        },
{
    match x {
        Some(i) => Some(i + 1),
        _ => None,
    }
}

/// Counts a coin that is no quarter: 0 for a quarter, 1 for any other coin.
/// Tells quarters apart with a `match`.
pub fn match_same(coin: Coin) -> (count: i32)
    ensures
        count == if coin is Quarter {
            0int
        } else {
            1int
        },
{
    let mut count: i32 = 0;
    match coin {
        Coin::Quarter(_state) => {},
        _ => count += 1,
    }
    count
}

/// Counts a coin that is no quarter: 0 for a quarter, 1 for any other coin.
/// Tells quarters apart with an `if let`.
pub fn if_let(coin: Coin) -> (count: i32)
    ensures
        count == if coin is Quarter {
            0int
        } else {
            1int
        },
{
    let mut count: i32 = 0;
    if let Coin::Quarter(_state) = coin {
    } else {
        count += 1;
    }
    count
}

} // verus!
