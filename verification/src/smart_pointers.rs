//! A box of one's own that can be dereferenced like a reference.

use std::ops::Deref;
use vstd::prelude::*;

verus! {

/// Holds one value and gives it out by reference.
pub struct MyBox<T>(pub T);

impl<T> MyBox<T> {
    /// Puts `x` into a box.
    pub fn new(x: T) -> (b: MyBox<T>)
        ensures
            b.0 == x,
    {
        MyBox(x)
    }
}

impl<T> Deref for MyBox<T> {
    type Target = T;

    fn deref(&self) -> (target: &T)
        ensures
            *target == self.0,
    {
        &self.0
    }
}

/// Reads one number through a reference, through a `Box` and through a
/// `MyBox`: all three give the number itself.
pub fn deref_use() -> (seen: (i32, i32, i32))
    ensures
        seen == (5i32, 5i32, 5i32),
{
    let x: i32 = 5;
    let y = &x;
    let y_box = Box::new(x);
    let z_mybox = MyBox::new(x);
    (*y, *y_box, *z_mybox)
}

} // verus!
