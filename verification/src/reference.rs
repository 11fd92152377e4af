//! A list whose tail is shared by reference counting.

use std::rc::Rc;
use vstd::prelude::*;

verus! {

/// A list of numbers; the rest of a list may be shared among several lists.
#[derive(Debug)]
pub enum CycList {
    Cons(i32, Rc<CycList>),
    Nil,
}

impl CycList {
    /// The rest of the list behind its first number, or nothing for the
    /// empty list.
    pub fn tail(&self) -> (rest: Option<&Rc<CycList>>)
        ensures
            match *self {
                CycList::Cons(_, item) => rest == Some(&item),
                CycList::Nil => rest is None,
            },
    {
        match self {
            CycList::Cons(_, item) => Some(item),
            CycList::Nil => None,
        }
    }
}

} // verus!
