//! Sums over the values of a finite map keyed by account names, and how they
//! change when one entry is added, replaced or removed.
use vstd::prelude::*;

verus! {

/// Sum of `f` over the values of `m` whose keys are in `s`.
pub open spec fn sum_on<V>(m: Map<Seq<char>, V>, s: Set<Seq<char>>, f: spec_fn(V) -> int) -> int {
    s.fold(0int, |acc: int, k: Seq<char>| acc + f(m[k]))
}

/// Sum of `f` over all values of `m`.
pub open spec fn sum_all<V>(m: Map<Seq<char>, V>, f: spec_fn(V) -> int) -> int {
    sum_on(m, m.dom(), f)
}

pub proof fn lemma_sum_on_empty<V>(m: Map<Seq<char>, V>, f: spec_fn(V) -> int)
    ensures
        sum_on(m, Set::empty(), f) == 0,
{
    vstd::set::fold::lemma_fold_empty(0int, |acc: int, k: Seq<char>| acc + f(m[k]));
}

pub proof fn lemma_sum_on_insert<V>(m: Map<Seq<char>, V>, s: Set<Seq<char>>, f: spec_fn(V) -> int, k: Seq<char>)
    requires
        s.finite(),
        !s.contains(k),
    ensures
        sum_on(m, s.insert(k), f) == sum_on(m, s, f) + f(m[k]),
{
    let g = |acc: int, k: Seq<char>| acc + f(m[k]);
    assert(vstd::set::fold::is_fun_commutative(g));
    vstd::set::fold::lemma_fold_insert(s, 0int, g, k);
}

/// Splits one key off a finite set.
pub proof fn lemma_sum_on_remove<V>(m: Map<Seq<char>, V>, s: Set<Seq<char>>, f: spec_fn(V) -> int, k: Seq<char>)
    requires
        s.finite(),
        s.contains(k),
    ensures
        sum_on(m, s, f) == sum_on(m, s.remove(k), f) + f(m[k]),
{
    lemma_sum_on_insert(m, s.remove(k), f, k);
    assert(s.remove(k).insert(k) =~= s);
}

/// Sums that agree key by key, compare as their terms do.
pub proof fn lemma_sum_on_le<V>(m1: Map<Seq<char>, V>, m2: Map<Seq<char>, V>, s: Set<Seq<char>>, f: spec_fn(V) -> int, g: spec_fn(V) -> int)
    requires
        s.finite(),
        forall|k: Seq<char>| s.contains(k) ==> f(m1[k]) <= g(m2[k]),
    ensures
        sum_on(m1, s, f) <= sum_on(m2, s, g),
    decreases s.len(),
{
    if s.len() == 0 {
        assert(s =~= Set::empty());
        lemma_sum_on_empty(m1, f);
        lemma_sum_on_empty(m2, g);
    } else {
        let k = s.choose();
        assert(s.contains(k));
        lemma_sum_on_remove(m1, s, f, k);
        lemma_sum_on_remove(m2, s, g, k);
        lemma_sum_on_le(m1, m2, s.remove(k), f, g);
    }
}

/// Sums whose terms are equal key by key are equal.
pub proof fn lemma_sum_on_eq<V>(m1: Map<Seq<char>, V>, m2: Map<Seq<char>, V>, s: Set<Seq<char>>, f: spec_fn(V) -> int, g: spec_fn(V) -> int)
    requires
        s.finite(),
        forall|k: Seq<char>| s.contains(k) ==> f(m1[k]) == g(m2[k]),
    ensures
        sum_on(m1, s, f) == sum_on(m2, s, g),
{
    lemma_sum_on_le(m1, m2, s, f, g);
    lemma_sum_on_le(m2, m1, s, g, f);
}

/// A sum of `c * f + g` is `c` times the sum of `f` plus the sum of `g`.
pub proof fn lemma_sum_on_lin<V>(m: Map<Seq<char>, V>, s: Set<Seq<char>>, h: spec_fn(V) -> int, f: spec_fn(V) -> int, g: spec_fn(V) -> int, c: int)
    requires
        s.finite(),
        forall|k: Seq<char>| s.contains(k) ==> h(m[k]) == c * f(m[k]) + g(m[k]),
    ensures
        sum_on(m, s, h) == c * sum_on(m, s, f) + sum_on(m, s, g),
    decreases s.len(),
{
    if s.len() == 0 {
        assert(s =~= Set::empty());
        lemma_sum_on_empty(m, h);
        lemma_sum_on_empty(m, f);
        lemma_sum_on_empty(m, g);
    } else {
        let k = s.choose();
        assert(s.contains(k));
        lemma_sum_on_remove(m, s, h, k);
        lemma_sum_on_remove(m, s, f, k);
        lemma_sum_on_remove(m, s, g, k);
        lemma_sum_on_lin(m, s.remove(k), h, f, g, c);
        let sf = sum_on(m, s.remove(k), f);
        assert(c * (sf + f(m[k])) == c * sf + c * f(m[k])) by (nonlinear_arith);
    }
}

/// Replacing (or adding) the value under `k` changes the sum by the
/// difference of its terms.
pub proof fn lemma_sum_all_insert<V>(m: Map<Seq<char>, V>, f: spec_fn(V) -> int, k: Seq<char>, v: V)
    requires
        m.dom().finite(),
    ensures
        m.insert(k, v).dom().finite(),
        sum_all(m.insert(k, v), f) == sum_all(m, f) - (if m.contains_key(k) { f(m[k]) } else { 0 }) + f(v),
{
    let m2 = m.insert(k, v);
    let rest = m.dom().remove(k);
    assert(m2.dom() =~= rest.insert(k));
    lemma_sum_on_insert(m2, rest, f, k);
    lemma_sum_on_eq(m, m2, rest, f, f);
    if m.contains_key(k) {
        lemma_sum_on_remove(m, m.dom(), f, k);
    } else {
        assert(rest =~= m.dom());
    }
}

/// Removing the value under `k` takes its term off the sum.
pub proof fn lemma_sum_all_remove<V>(m: Map<Seq<char>, V>, f: spec_fn(V) -> int, k: Seq<char>)
    requires
        m.dom().finite(),
        m.contains_key(k),
    ensures
        m.remove(k).dom().finite(),
        sum_all(m.remove(k), f) == sum_all(m, f) - f(m[k]),
{
    let m2 = m.remove(k);
    assert(m2.dom() =~= m.dom().remove(k));
    lemma_sum_on_remove(m, m.dom(), f, k);
    lemma_sum_on_eq(m, m2, m.dom().remove(k), f, f);
}

} // verus!
