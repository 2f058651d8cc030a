//! Properties that hold across the operations of the doubles, stated over
//! their models.
use vstd::prelude::*;
use vstd::std_specs::cmp::PartialEqSpec;

use crate::fake::FakeModel;
use crate::mock::MockModel;
use crate::stub::StubModel;

verus! {

/// A freshly constructed double of any kind has nothing configured, so
/// every dispatch on it fails; a mock also starts with an empty log.
pub proof fn fresh_doubles_are_unset<P, F, G, R>(name: Seq<char>)
    ensures
        !MockModel::<P, F>::fresh(name).is_set(),
        MockModel::<P, F>::fresh(name).calls.len() == 0,
        !FakeModel::<G>::fresh(name).is_set(),
        !StubModel::<R>::fresh(name).is_set(),
{
}

/// After `setup(f)` a mock is set and holds `f`; after `clear()` it is
/// unset and equal to a fresh mock of the same name.
pub proof fn mock_setup_then_clear<P, F>(m: MockModel<P, F>, f: F)
    ensures
        m.setup(f).is_set(),
        m.setup(f).implementation == Some(f),
        !m.clear().is_set(),
        m.clear() == MockModel::<P, F>::fresh(m.name),
        m.setup(f).clear() == MockModel::<P, F>::fresh(m.name),
{
}

/// After `setup(f)` a fake is set and hands out exactly `f`; after
/// `clear()` it is unset and equal to a fresh fake of the same name.
pub proof fn fake_setup_then_clear<F>(m: FakeModel<F>, f: F)
    ensures
        m.setup(f).is_set(),
        m.setup(f).implementation == Some(f),
        !m.clear().is_set(),
        m.clear() == FakeModel::<F>::fresh(m.name),
        m.setup(f).clear() == FakeModel::<F>::fresh(m.name),
{
}

/// After `setup(v)` a stub is set and holds `v`; after `clear()` it is
/// unset and equal to a fresh stub of the same name.
pub proof fn stub_setup_then_clear<R>(m: StubModel<R>, v: R)
    ensures
        m.setup(v).is_set(),
        m.setup(v).value == Some(v),
        !m.clear().is_set(),
        m.clear() == StubModel::<R>::fresh(m.name),
        m.setup(v).clear() == StubModel::<R>::fresh(m.name),
{
}

/// Starting from an empty log, calls logging `ps` leave exactly `ps` in
/// the log, in call order, and keep the name and implementation;
/// `assert_times(k)` then holds for `k == ps.len()` and for no other `k`.
pub proof fn mock_log_keeps_calls_in_order<P, F>(name: Seq<char>, implementation: Option<F>, ps: Seq<P>)
    ensures
        (MockModel { name, implementation, calls: Seq::empty() }).record_all(ps).calls == ps,
        (MockModel { name, implementation, calls: Seq::empty() }).record_all(ps).name == name,
        (MockModel { name, implementation, calls: Seq::empty() }).record_all(ps).implementation
            == implementation,
        forall|k: int|
            #[trigger] (MockModel { name, implementation, calls: Seq::empty() }).record_all(ps).called_times(k)
                <==> k == ps.len(),
    decreases ps.len(),
{
    let m = MockModel { name, implementation, calls: Seq::<P>::empty() };
    if ps.len() > 0 {
        mock_log_keeps_calls_in_order(name, implementation, ps.drop_last());
        assert(m.record_all(ps).calls =~= ps);
    } else {
        assert(m.record_all(ps).calls =~= ps);
    }
}

/// Where equality on `P` is reflexive, `assert_with` holds of every
/// logged entry, and fails for a value that equals none of them.
pub proof fn mock_asserts_match_logged_calls<P: PartialEq, F>(
    name: Seq<char>,
    implementation: Option<F>,
    ps: Seq<P>,
    q: P,
)
    requires
        forall|x: P| #[trigger] x.eq_spec(&x),
    ensures
        forall|i: int|
            0 <= i < ps.len() ==> (MockModel { name, implementation, calls: Seq::empty() }).record_all(
                ps,
            ).called_with(#[trigger] ps[i]),
        (forall|i: int| 0 <= i < ps.len() ==> !(#[trigger] ps[i]).eq_spec(&q)) ==> !(MockModel {
            name,
            implementation,
            calls: Seq::empty(),
        }).record_all(ps).called_with(q),
{
    mock_log_keeps_calls_in_order(name, implementation, ps);
    let m = (MockModel { name, implementation, calls: Seq::<P>::empty() }).record_all(ps);
    assert forall|i: int| 0 <= i < ps.len() implies m.called_with(#[trigger] ps[i]) by {
        assert(m.calls[i].eq_spec(&ps[i]));
    }
}

/// Reaching the double of one name in a store leaves the double of every
/// other name as it was, present or absent.
pub proof fn store_names_are_isolated<D>(before: Map<Seq<char>, D>, name: Seq<char>, d: D, other: Seq<char>)
    requires
        other != name,
    ensures
        before.insert(name, d).contains_key(other) == before.contains_key(other),
        before.contains_key(other) ==> before.insert(name, d)[other] == before[other],
{
}

} // verus!
