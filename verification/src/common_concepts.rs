//! Variables, scalar and compound types, functions and control flow.

use vstd::prelude::*;

verus! {

/// Rebinds a name twice, each time to a value computed from the one before.
pub fn shadowing() -> (x: i32)
    ensures
        x == 12,
{
    let x: i32 = 5;
    let x: i32 = x + 1;
    let x: i32 = x * 2;
    x
}

/// The two truth values.
pub fn boolean_type() {
    let _t: bool = true;
    let _f: bool = false;
}

/// A single character.
pub fn char_type() {
    let _c: char = 'z';
}

/// An array of fixed length, and its first element.
pub fn array_type() {
    let a: [i32; 5] = [1, 2, 3, 4, 5];
    let _e: i32 = a[0];
    assert(_e == 1);
}

/// The successor of `x`.
pub fn plus_one(x: i32) -> (y: i32)
    requires
        x < i32::MAX,
    ensures
        y == x + 1,
{
    x + 1
}

/// Chooses between two numbers: 5 when the condition holds, 6 when not.
pub fn if_example(condition: bool) -> (n: i32)
    ensures
        n == if condition {
            5int
        } else {
            6int
        },
{
    let x: i32 = 3;
    assert(x != 2);
    let n: i32 = if condition {
        5
    } else {
        6
    };
    n
}

/// Counts up to ten and leaves the loop with twice the count.
pub fn loop_ex() -> (result: i32)
    ensures
        result == 20,
{
    let mut counter: i32 = 0;
    let mut result: i32 = 0;
    loop
        invariant_except_break
            0 <= counter < 10,
        ensures
            result == 20,
        decreases 10 - counter,
    {
        counter += 1;
        if counter == 10 {
            result = counter * 2;
            break ;
        }
    }
    result
}

} // verus!
