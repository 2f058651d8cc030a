//! Failures reported by the doubles.
use vstd::prelude::*;

verus! {

/// A dispatch (`call`, `get_implementation`, `get_return_value`) was made
/// while nothing was configured.
#[derive(Debug, PartialEq, Eq)]
pub struct NotConfigured {
    pub name: String,
}

/// An assertion on a mock's call log did not hold.
#[derive(Debug, PartialEq, Eq)]
pub enum AssertionFailure<P> {
    /// `assert_times`: the log length differs from the expected count.
    Times { name: String, expected: u32, actual: usize },
    /// `assert_with`: no logged entry equals `params`; `logged` holds a copy
    /// of the whole log.
    With { name: String, params: P, logged: Vec<P> },
}

impl NotConfigured {
    pub fn new(name: &String) -> (e: NotConfigured)
        ensures
            e.name@ == name@,
    {
        NotConfigured { name: name.clone() }
    }
}

} // verus!
