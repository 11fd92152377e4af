//! Functions handed around as values.

use std::ops::Range;
use vstd::prelude::*;
use crate::text::{decimal, i64_to_string, texts};

verus! {

/// The successor of `x`.
pub fn add_one(x: i32) -> (y: i32)
    requires
        x < i32::MAX,
    ensures
        y == x + 1,
{
    x + 1
}

/// Applies `f` to `arg` twice and adds up what the two calls return.
pub fn do_twice<F: Fn(i32) -> i32>(f: F, arg: i32) -> (sum: i32)
    requires
        call_requires(f, (arg,)),
        forall|a: i32, b: i32|
            call_ensures(f, (arg,), a) && call_ensures(f, (arg,), b) ==> i32::MIN <= a + b
                <= i32::MAX,
    ensures
        exists|a: i32, b: i32|
            call_ensures(f, (arg,), a) && call_ensures(f, (arg,), b) && sum == a + b,
{
    f(arg) + f(arg)
}

/// The decimal text of every number of `numbers`, in order.
pub open spec fn decimal_texts(numbers: Seq<i32>) -> Seq<Seq<char>> {
    numbers.map_values(|n: i32| decimal(n as int))
}

/// Applies `convert` to every number, in order: the counterpart of mapping
/// over the list.
fn map_to_strings<F: Fn(i32) -> String>(strs: &Vec<i32>, convert: F) -> (list: Vec<String>)
    requires
        forall|j: int| 0 <= j < strs.len() ==> call_requires(convert, (#[trigger] strs[j],)),
        forall|i: i32, s: String| call_ensures(convert, (i,), s) ==> s@ == decimal(i as int),
    ensures
        texts(list@) == decimal_texts(strs@),
{
    let mut list: Vec<String> = Vec::new();
    let mut k: usize = 0;
    while k < strs.len()
        invariant
            k <= strs.len(),
            list.len() == k,
            forall|j: int| 0 <= j < k ==> (#[trigger] list@[j])@ == decimal(strs@[j] as int),
            forall|j: int| 0 <= j < strs.len() ==> call_requires(convert, (#[trigger] strs[j],)),
            forall|i: i32, s: String| call_ensures(convert, (i,), s) ==> s@ == decimal(i as int),
        decreases strs.len() - k,
    {
        list.push(convert(strs[k]));
        k = k + 1;
    }
    assert(texts(list@) =~= decimal_texts(strs@));
    list
}

/// Writes every number in decimal, converting each with a closure.
pub fn list_of_strings_closure(strs: &Vec<i32>) -> (list: Vec<String>)
    ensures
        texts(list@) == decimal_texts(strs@),
{
    let convert = |i: i32| -> (s: String)
        ensures
            s@ == decimal(i as int),
        { i64_to_string(i as i64) };
    map_to_strings(strs, convert)
}

/// The decimal text of `i`, as a named function that can stand where a
/// closure is expected.
pub fn to_string(i: i32) -> (s: String)
    ensures
        s@ == decimal(i as int),
{
    i64_to_string(i as i64)
}

/// Writes every number in decimal, converting each with a named function.
pub fn list_of_strings_fn(strs: &Vec<i32>) -> (list: Vec<String>)
    ensures
        texts(list@) == decimal_texts(strs@),
{
    map_to_strings(strs, to_string)
}

/// Either a value or the end.
#[derive(Debug, PartialEq)]
pub enum Status {
    Value(u32),
    Stop,
}

/// Wraps every number of the range `t` into a `Status::Value`, in order.
pub fn list_of_statuses(t: Range<u32>) -> (list: Vec<Status>)
    ensures
        list.len() == if t.start < t.end {
            t.end - t.start
        } else {
            0
        },
        forall|j: int| 0 <= j < list.len() ==> list[j] == Status::Value((t.start + j) as u32),
{
    let mut list: Vec<Status> = Vec::new();
    let mut i: u32 = t.start;
    while i < t.end
        invariant
            t.start <= i <= t.end || (t.start >= t.end && i == t.start),
            list.len() == i - t.start,
            forall|j: int| 0 <= j < list.len() ==> list[j] == Status::Value((t.start + j) as u32),
        decreases t.end - i,
    {
        list.push(Status::Value(i));
        i = i + 1;
    }
    list
}

/// Hands out a closure that adds one to its argument.
pub fn return_closure() -> (f: impl Fn(i32) -> i32)
    ensures
        forall|x: i32| x < i32::MAX ==> call_requires(f, (x,)),
        forall|x: i32, y: i32| call_ensures(f, (x,), y) ==> y == x + 1,
{
    |x: i32| -> (y: i32)
        requires
            x < i32::MAX,
        ensures
            y == x + 1,
        { x + 1 }
}

} // verus!
