//! A stub: a fixed return value, duplicated on every query.
use vstd::prelude::*;

use crate::error::NotConfigured;

verus! {

/// What a stub holds: its name and the configured value, if any.
pub ghost struct StubModel<R> {
    pub name: Seq<char>,
    pub value: Option<R>,
}

impl<R> StubModel<R> {
    /// The state right after construction.
    pub open spec fn fresh(name: Seq<char>) -> Self {
        StubModel { name, value: None }
    }

    pub open spec fn is_set(self) -> bool {
        self.value is Some
    }

    pub open spec fn setup(self, value: R) -> Self {
        StubModel { value: Some(value), ..self }
    }

    pub open spec fn clear(self) -> Self {
        StubModel::fresh(self.name)
    }
}

/// A stub for a function returning `R`.
pub struct StubDouble<R> {
    name: String,
    value: Option<R>,
}

impl<R> View for StubDouble<R> {
    type V = StubModel<R>;

    closed spec fn view(&self) -> StubModel<R> {
        StubModel { name: self.name@, value: self.value }
    }
}

impl<R> StubDouble<R> {
    /// A stub with nothing configured.
    pub fn new(name: &str) -> (s: Self)
        ensures
            s@ == StubModel::<R>::fresh(name@),
    {
        StubDouble { name: name.to_owned(), value: None }
    }

    /// Stores `value`, replacing any value stored before.
    pub fn setup(&mut self, value: R)
        ensures
            final(self)@ == old(self)@.setup(value),
    {
        self.value = Some(value);
    }

    /// Discards the stored value.
    pub fn clear(&mut self)
        ensures
            final(self)@ == old(self)@.clear(),
    {
        self.value = None;
    }

    pub fn is_set(&self) -> (r: bool)
        ensures
            r == self@.is_set(),
    {
        self.value.is_some()
    }

    /// A duplicate of the stored value; the stored value stays as it is.
    pub fn get_return_value(&self) -> (r: Result<R, NotConfigured>)
        where
            R: Clone,
        ensures
            match self@.value {
                Some(v) => r matches Ok(d) && cloned(v, d),
                None => r matches Err(e) && e.name@ == self@.name,
            },
    {
        match &self.value {
            Some(v) => Ok(v.clone()),
            None => Err(NotConfigured::new(&self.name)),
        }
    }
}

} // verus!
