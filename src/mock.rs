//! A mock: a pluggable implementation plus a log of every call, against
//! which a test can assert.
use vstd::prelude::*;

use vstd::std_specs::cmp::PartialEqSpec;

use crate::error::{AssertionFailure, NotConfigured};

verus! {

/// What a mock holds: its name, the configured implementation, if any, and
/// the parameters of every call so far, oldest first.
pub ghost struct MockModel<P, F> {
    pub name: Seq<char>,
    pub implementation: Option<F>,
    pub calls: Seq<P>,
}

impl<P, F> MockModel<P, F> {
    /// The state right after construction.
    pub open spec fn fresh(name: Seq<char>) -> Self {
        MockModel { name, implementation: None, calls: Seq::empty() }
    }

    pub open spec fn is_set(self) -> bool {
        self.implementation is Some
    }

    pub open spec fn setup(self, f: F) -> Self {
        MockModel { implementation: Some(f), ..self }
    }

    pub open spec fn clear(self) -> Self {
        MockModel::fresh(self.name)
    }

    /// The state after one call whose logged parameters are `p`.
    pub open spec fn record(self, p: P) -> Self {
        MockModel { calls: self.calls.push(p), ..self }
    }

    /// The state after calls whose logged parameters are `ps`, in order.
    pub open spec fn record_all(self, ps: Seq<P>) -> Self
        decreases ps.len(),
    {
        if ps.len() == 0 {
            self
        } else {
            self.record_all(ps.drop_last()).record(ps.last())
        }
    }

    /// `assert_times(expected)` holds.
    pub open spec fn called_times(self, expected: int) -> bool {
        self.calls.len() == expected
    }
}

impl<P: PartialEq, F> MockModel<P, F> {
    /// `assert_with(q)` holds: some logged entry equals `q`.
    pub open spec fn called_with(self, q: P) -> bool {
        exists|i: int| 0 <= i < self.calls.len() && (#[trigger] self.calls[i]).eq_spec(&q)
    }
}

/// A mock whose logged parameters have type `P` and whose implementation
/// has type `F`.
pub struct MockDouble<P, F> {
    name: String,
    implementation: Option<F>,
    calls: Vec<P>,
}

impl<P, F> View for MockDouble<P, F> {
    type V = MockModel<P, F>;

    closed spec fn view(&self) -> MockModel<P, F> {
        MockModel { name: self.name@, implementation: self.implementation, calls: self.calls@ }
    }
}

impl<P, F> MockDouble<P, F> {
    /// A mock with no implementation and an empty log.
    pub fn new(name: &str) -> (m: Self)
        ensures
            m@ == MockModel::<P, F>::fresh(name@),
    {
        MockDouble { name: name.to_owned(), implementation: None, calls: Vec::new() }
    }

    /// Makes `f` the implementation, replacing any earlier one.
    pub fn setup(&mut self, f: F)
        ensures
            final(self)@ == old(self)@.setup(f),
    {
        self.implementation = Some(f);
    }

    /// Drops the implementation and empties the log.
    pub fn clear(&mut self)
        ensures
            final(self)@ == old(self)@.clear(),
    {
        self.implementation = None;
        self.calls = Vec::new();
    }

    pub fn is_set(&self) -> (r: bool)
        ensures
            r == self@.is_set(),
    {
        self.implementation.is_some()
    }

    /// Logs `recorded`, then hands `args` to the implementation. `recorded`
    /// is what assertions see of the call: the full parameters with the
    /// positions that are not compared left out. The log grows whether or
    /// not an implementation is configured.
    pub fn call_recording<A, R>(&mut self, args: A, recorded: P) -> (r: Result<R, NotConfigured>)
        where
            F: Fn(A) -> R,
        requires
            old(self)@.implementation matches Some(f) ==> call_requires(f, (args,)),
        ensures
            final(self)@ == old(self)@.record(recorded),
            match old(self)@.implementation {
                Some(f) => r matches Ok(v) && call_ensures(f, (args,), v),
                None => r matches Err(e) && e.name@ == old(self)@.name,
            },
    {
        self.calls.push(recorded);
        match &self.implementation {
            Some(f) => Ok(f(args)),
            None => Err(NotConfigured::new(&self.name)),
        }
    }

    /// Logs a copy of `params`, then hands `params` to the implementation.
    pub fn call<R>(&mut self, params: P) -> (r: Result<R, NotConfigured>)
        where
            P: Clone,
            F: Fn(P) -> R,
        requires
            old(self)@.implementation matches Some(f) ==> call_requires(f, (params,)),
        ensures
            final(self)@ == old(self)@.record(final(self)@.calls.last()),
            cloned(params, final(self)@.calls.last()),
            match old(self)@.implementation {
                Some(f) => r matches Ok(v) && call_ensures(f, (params,), v),
                None => r matches Err(e) && e.name@ == old(self)@.name,
            },
    {
        let recorded = params.clone();
        self.call_recording(params, recorded)
    }

    /// Succeeds exactly when the log holds `expected` calls.
    pub fn assert_times(&self, expected: u32) -> (r: Result<(), AssertionFailure<P>>)
        ensures
            r is Ok <==> self@.called_times(expected as int),
            r matches Err(e) ==> e matches AssertionFailure::Times { name, expected: x, actual }
                && name@ == self@.name && x == expected && actual == self@.calls.len(),
    {
        if self.calls.len() == expected as usize {
            Ok(())
        } else {
            Err(
                AssertionFailure::Times {
                    name: self.name.clone(),
                    expected,
                    actual: self.calls.len(),
                },
            )
        }
    }

    /// Succeeds exactly when some logged entry equals `params`; entries are
    /// compared in log order. On failure, carries a copy of the log.
    pub fn assert_with(&self, params: P) -> (r: Result<(), AssertionFailure<P>>)
        where
            P: PartialEq + Clone,
        ensures
            P::obeys_eq_spec() ==> (r is Ok <==> self@.called_with(params)),
            r matches Err(e) ==> e matches AssertionFailure::With { name, params: q, logged }
                && name@ == self@.name && q == params
                && logged@.len() == self@.calls.len()
                && forall|i: int| 0 <= i < logged@.len() ==> cloned(self@.calls[i], #[trigger] logged@[i]),
    {
        let mut i: usize = 0;
        while i < self.calls.len()
            invariant
                0 <= i <= self.calls.len(),
                P::obeys_eq_spec() ==> forall|j: int| 0 <= j < i ==> !(#[trigger] self.calls@[j]).eq_spec(&params),
            decreases self.calls.len() - i,
        {
            if self.calls[i].eq(&params) {
                proof {
                    if P::obeys_eq_spec() {
                        assert(self@.calls[i as int].eq_spec(&params));
                    }
                }
                return Ok(());
            }
            i = i + 1;
        }
        Err(AssertionFailure::With { name: self.name.clone(), params, logged: self.calls.clone() })
    }
}

} // verus!
