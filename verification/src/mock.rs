//! A quota tracker that reports through a messenger supplied by its user.

use vstd::prelude::*;

verus! {

/// Receives the warnings of a [`LimitTracker`].
pub trait Messager {
    fn send(&self, msg: &str);
}

/// Follows a value against a maximum and warns as the value nears it.
pub struct LimitTracker<'a, T: Messager> {
    messager: &'a T,
    value: usize,
    max: usize,
}

/// The warning that a value deserves against a maximum, if any.
///
/// More than three quarters of the maximum is worth a warning, nine tenths or
/// more an urgent one, and the whole of it or more is an error. Nothing can
/// be said of no use of no quota.
pub open spec fn quota_message(value: int, max: int) -> Option<Seq<char>> {
    if max == 0 && value == 0 {
        None
    } else if value >= max {
        Some("Error: You are over your quota!"@)
    } else if 10 * value >= 9 * max {
        Some("Urgent warning: You've used up over 90% of your quota!"@)
    } else if 4 * value > 3 * max {
        Some("Warning: You've used up over 75% of your quota!"@)
    } else {
        None
    }
}

/// Chooses the warning for `value` out of `max`.
pub fn quota_warning(value: usize, max: usize) -> (msg: Option<&'static str>)
    ensures
        msg is Some <==> quota_message(value as int, max as int) is Some,
        msg matches Some(text) ==> Some(text@) == quota_message(value as int, max as int),
{
    let v = value as u128;
    let m = max as u128;
    if 4 * v > 3 * m && 10 * v < 9 * m {
        Some("Warning: You've used up over 75% of your quota!")
    } else if 10 * v >= 9 * m && v < m {
        Some("Urgent warning: You've used up over 90% of your quota!")
    } else if v >= m && !(m == 0 && v == 0) {
        Some("Error: You are over your quota!")
    } else {
        None
    }
}

impl<'a, T: Messager> LimitTracker<'a, T> {
    /// The messenger that warnings go to.
    pub closed spec fn messager(&self) -> &'a T {
        self.messager
    }

    /// The value set last.
    pub closed spec fn value(&self) -> usize {
        self.value
    }

    /// The maximum that the value is held against.
    pub closed spec fn max(&self) -> usize {
        self.max
    }

    /// A tracker that starts at zero.
    pub fn new(messager: &'a T, max: usize) -> (tracker: LimitTracker<'a, T>)
        ensures
            tracker.messager() == messager,
            tracker.value() == 0,
            tracker.max() == max,
    {
        LimitTracker { messager, value: 0, max }
    }

    /// Records `value` and sends the messenger the warning that
    /// [`quota_warning`] chooses for it, if it chooses one.
    pub fn set_value(&mut self, value: usize)
        ensures
            final(self).value() == value,
            final(self).max() == old(self).max(),
            final(self).messager() == old(self).messager(),
    {
        self.value = value;
        match quota_warning(self.value, self.max) {
            Some(msg) => self.messager.send(msg),
            None => {},
        }
    }
}

} // verus!
