//! A fake: a pluggable implementation and nothing else. Nothing is logged,
//! so the parameters may be references.
use vstd::prelude::*;

use crate::error::NotConfigured;

verus! {

/// What a fake holds: its name and the configured implementation, if any.
pub ghost struct FakeModel<F> {
    pub name: Seq<char>,
    pub implementation: Option<F>,
}

impl<F> FakeModel<F> {
    /// The state right after construction.
    pub open spec fn fresh(name: Seq<char>) -> Self {
        FakeModel { name, implementation: None }
    }

    pub open spec fn is_set(self) -> bool {
        self.implementation is Some
    }

    pub open spec fn setup(self, f: F) -> Self {
        FakeModel { implementation: Some(f), ..self }
    }

    pub open spec fn clear(self) -> Self {
        FakeModel::fresh(self.name)
    }
}

/// A fake whose implementation has type `F`.
pub struct FakeDouble<F> {
    name: String,
    implementation: Option<F>,
}

impl<F> View for FakeDouble<F> {
    type V = FakeModel<F>;

    closed spec fn view(&self) -> FakeModel<F> {
        FakeModel { name: self.name@, implementation: self.implementation }
    }
}

impl<F> FakeDouble<F> {
    /// A fake with no implementation.
    pub fn new(name: &str) -> (d: Self)
        ensures
            d@ == FakeModel::<F>::fresh(name@),
    {
        FakeDouble { name: name.to_owned(), implementation: None }
    }

    /// Makes `f` the implementation, replacing any earlier one.
    pub fn setup(&mut self, f: F)
        ensures
            final(self)@ == old(self)@.setup(f),
    {
        self.implementation = Some(f);
    }

    /// Drops the implementation.
    pub fn clear(&mut self)
        ensures
            final(self)@ == old(self)@.clear(),
    {
        self.implementation = None;
    }

    pub fn is_set(&self) -> (r: bool)
        ensures
            r == self@.is_set(),
    {
        self.implementation.is_some()
    }

    /// The configured implementation itself; the caller invokes it.
    pub fn get_implementation(&self) -> (r: Result<&F, NotConfigured>)
        ensures
            match self@.implementation {
                Some(f) => r matches Ok(g) && *g == f,
                None => r matches Err(e) && e.name@ == self@.name,
            },
    {
        match &self.implementation {
            Some(f) => Ok(f),
            None => Err(NotConfigured::new(&self.name)),
        }
    }
}

} // verus!
