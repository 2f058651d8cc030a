//! Per-context storage: each execution context owns one store, which holds
//! that context's double for each call site, created on first access.
use vstd::prelude::*;

use crate::fake::{FakeDouble, FakeModel};
use crate::mock::{MockDouble, MockModel};
use crate::stub::{StubDouble, StubModel};

verus! {

/// A double kind that a store can create on first access.
pub trait Double: Sized {
    /// `self` is in the state of a freshly constructed double named `name`.
    spec fn is_fresh(&self, name: Seq<char>) -> bool;

    fn fresh(name: &str) -> (d: Self)
        ensures
            d.is_fresh(name@);
}

impl<P, F> Double for MockDouble<P, F> {
    open spec fn is_fresh(&self, name: Seq<char>) -> bool {
        self@ == MockModel::<P, F>::fresh(name)
    }

    fn fresh(name: &str) -> (d: Self) {
        MockDouble::new(name)
    }
}

impl<F> Double for FakeDouble<F> {
    open spec fn is_fresh(&self, name: Seq<char>) -> bool {
        self@ == FakeModel::<F>::fresh(name)
    }

    fn fresh(name: &str) -> (d: Self) {
        FakeDouble::new(name)
    }
}

impl<R> Double for StubDouble<R> {
    open spec fn is_fresh(&self, name: Seq<char>) -> bool {
        self@ == StubModel::<R>::fresh(name)
    }

    fn fresh(name: &str) -> (d: Self) {
        StubDouble::new(name)
    }
}

/// Each name occurs once.
pub open spec fn distinct_names(names: Seq<String>) -> bool {
    forall|i: int, j: int| 0 <= i < j < names.len() ==> #[trigger] names[i]@ != #[trigger] names[j]@
}

pub open spec fn has_name(names: Seq<String>, k: Seq<char>) -> bool {
    exists|i: int| 0 <= i < names.len() && (#[trigger] names[i])@ == k
}

pub open spec fn index_of(names: Seq<String>, k: Seq<char>) -> int {
    choose|i: int| 0 <= i < names.len() && (#[trigger] names[i])@ == k
}

/// The map from each name to the double beside it.
pub open spec fn map_of<D>(names: Seq<String>, doubles: Seq<D>) -> Map<Seq<char>, D> {
    Map::new(|k: Seq<char>| has_name(names, k), |k: Seq<char>| doubles[index_of(names, k)])
}

proof fn lemma_index_of(names: Seq<String>, i: int)
    requires
        distinct_names(names),
        0 <= i < names.len(),
    ensures
        has_name(names, names[i]@),
        index_of(names, names[i]@) == i,
{
    let k = names[i]@;
    assert(has_name(names, k));
    let j = index_of(names, k);
    assert(names[j]@ == k);
}

proof fn lemma_map_update<D>(names: Seq<String>, doubles: Seq<D>, i: int, x: D)
    requires
        distinct_names(names),
        names.len() == doubles.len(),
        0 <= i < names.len(),
    ensures
        map_of(names, doubles.update(i, x)) == map_of(names, doubles).insert(names[i]@, x),
{
    lemma_index_of(names, i);
    let m1 = map_of(names, doubles.update(i, x));
    let m2 = map_of(names, doubles).insert(names[i]@, x);
    assert forall|k: Seq<char>| #[trigger] m1.contains_key(k) implies m1[k] == m2[k] by {
        let j = index_of(names, k);
        assert(names[j]@ == k);
        if k != names[i]@ {
            assert(j != i);
        }
    }
    assert(m1 =~= m2);
}

proof fn lemma_map_push<D>(names: Seq<String>, doubles: Seq<D>, n: String, x: D)
    requires
        distinct_names(names),
        names.len() == doubles.len(),
        !has_name(names, n@),
    ensures
        distinct_names(names.push(n)),
        map_of(names.push(n), doubles.push(x)) == map_of(names, doubles).insert(n@, x),
{
    let ns = names.push(n);
    let ds = doubles.push(x);
    assert forall|i: int, j: int| 0 <= i < j < ns.len() implies #[trigger] ns[i]@ != #[trigger] ns[j]@ by {
        if j == names.len() {
            assert(ns[i] == names[i]);
        } else {
            assert(ns[i] == names[i] && ns[j] == names[j]);
        }
    }
    lemma_index_of(ns, names.len() as int);
    let m1 = map_of(ns, ds);
    let m2 = map_of(names, doubles).insert(n@, x);
    assert forall|k: Seq<char>| #[trigger] m2.contains_key(k) implies m1.contains_key(k) by {
        if k != n@ {
            let j = index_of(names, k);
            assert(ns[j] == names[j]);
        }
    }
    assert forall|k: Seq<char>| #[trigger] m1.contains_key(k) implies m2.contains_key(k) && m1[k] == m2[k] by {
        if k != n@ {
            let j = index_of(ns, k);
            assert(ns[j]@ == k);
            assert(j < names.len());
            assert(ns[j] == names[j]);
            lemma_index_of(names, j);
        }
    }
    assert(m1 =~= m2);
}

/// The doubles of one execution context, keyed by name. Two stores share
/// nothing, and an access to one name leaves every other name's double as
/// it was.
pub struct ContextStore<D> {
    names: Vec<String>,
    doubles: Vec<D>,
}

impl<D> View for ContextStore<D> {
    type V = Map<Seq<char>, D>;

    /// The double that each name maps to.
    closed spec fn view(&self) -> Map<Seq<char>, D> {
        map_of(self.names@, self.doubles@)
    }
}

impl<D> ContextStore<D> {
    /// Each name is held once, beside its double.
    pub closed spec fn wf(&self) -> bool {
        &&& self.names.len() == self.doubles.len()
        &&& distinct_names(self.names@)
    }

    /// A store with no doubles.
    pub fn new() -> (s: Self)
        ensures
            s.wf(),
            s@ == Map::<Seq<char>, D>::empty(),
    {
        let s = ContextStore { names: Vec::new(), doubles: Vec::new() };
        assert(s@ =~= Map::<Seq<char>, D>::empty());
        s
    }

    fn find(&self, name: &String) -> (r: Option<usize>)
        requires
            self.wf(),
        ensures
            match r {
                Some(i) => i < self.names.len() && self.names@[i as int]@ == name@,
                None => !has_name(self.names@, name@),
            },
    {
        let mut i: usize = 0;
        while i < self.names.len()
            invariant
                0 <= i <= self.names.len(),
                forall|j: int| 0 <= j < i ==> (#[trigger] self.names@[j])@ != name@,
            decreases self.names.len() - i,
        {
            if self.names[i].eq(name) {
                return Some(i);
            }
            i = i + 1;
        }
        None
    }

    /// Whether a double named `name` was created in this store.
    pub fn contains(&self, name: &str) -> (r: bool)
        requires
            self.wf(),
        ensures
            r == self@.contains_key(name@),
    {
        let key = name.to_owned();
        self.find(&key).is_some()
    }

    /// The double named `name`, if one was created.
    pub fn get(&self, name: &str) -> (r: Option<&D>)
        requires
            self.wf(),
        ensures
            match r {
                Some(d) => self@.contains_key(name@) && *d == self@[name@],
                None => !self@.contains_key(name@),
            },
    {
        let key = name.to_owned();
        match self.find(&key) {
            Some(i) => {
                proof {
                    lemma_index_of(self.names@, i as int);
                }
                Some(&self.doubles[i])
            },
            None => None,
        }
    }
}

impl<D: Double> ContextStore<D> {
    /// The double named `name`, created fresh on first access.
    pub fn entry(&mut self, name: &str) -> (r: &mut D)
        requires
            old(self).wf(),
        ensures
            final(self).wf(),
            old(self)@.contains_key(name@) ==> *r == old(self)@[name@],
            !old(self)@.contains_key(name@) ==> r.is_fresh(name@),
            final(self)@ == old(self)@.insert(name@, *final(r)),
    {
        let key = name.to_owned();
        let i = match self.find(&key) {
            Some(i) => {
                proof {
                    lemma_index_of(self.names@, i as int);
                }
                i
            },
            None => {
                let d = D::fresh(name);
                proof {
                    lemma_map_push(self.names@, self.doubles@, key, d);
                }
                self.names.push(key);
                self.doubles.push(d);
                proof {
                    lemma_index_of(self.names@, self.names.len() - 1);
                }
                self.names.len() - 1
            },
        };
        proof {
            assert forall|x: D| #[trigger] map_of(self.names@, self.doubles@.update(i as int, x))
                == map_of(self.names@, self.doubles@).insert(name@, x) by {
                lemma_map_update(self.names@, self.doubles@, i as int, x);
            }
        }
        &mut self.doubles[i]
    }
}

} // verus!
