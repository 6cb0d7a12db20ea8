//! Key–value lists with map semantics, as JSON objects hold them: setting a
//! key replaces its value where the key is present and appends it otherwise.

use vstd::prelude::*;
use crate::text::str_eq;

verus! {

/// The entries with keys and values taken by their views.
pub open spec fn pairs_view<T: View>(es: Seq<(String, T)>) -> Seq<(Seq<char>, T::V)> {
    es.map_values(|e: (String, T)| (e.0@, e.1@))
}

/// The index of the last entry with key `k`, or -1 when there is none.
pub open spec fn key_index<V>(es: Seq<(Seq<char>, V)>, k: Seq<char>) -> int
    decreases es.len(),
{
    if es.len() == 0 {
        -1
    } else if es.last().0 == k {
        es.len() - 1
    } else {
        key_index(es.drop_last(), k)
    }
}

/// The value of key `k`, if it is present.
pub open spec fn lookup<V>(es: Seq<(Seq<char>, V)>, k: Seq<char>) -> Option<V> {
    if key_index(es, k) >= 0 {
        Some(es[key_index(es, k)].1)
    } else {
        None
    }
}

/// The entries after setting `k` to `v`.
pub open spec fn insert_entry<V>(es: Seq<(Seq<char>, V)>, k: Seq<char>, v: V) -> Seq<(Seq<char>, V)> {
    let i = key_index(es, k);
    if i >= 0 {
        es.update(i, (k, v))
    } else {
        es.push((k, v))
    }
}

/// The entries after setting each of `xs` in order.
pub open spec fn insert_all<V>(es: Seq<(Seq<char>, V)>, xs: Seq<(Seq<char>, V)>) -> Seq<(Seq<char>, V)>
    decreases xs.len(),
{
    if xs.len() == 0 {
        es
    } else {
        insert_entry(insert_all(es, xs.drop_last()), xs.last().0, xs.last().1)
    }
}

/// Whether no key occurs twice.
pub open spec fn unique_keys<V>(es: Seq<(Seq<char>, V)>) -> bool {
    forall|i: int, j: int| 0 <= i < j < es.len() ==> es[i].0 != es[j].0
}

pub proof fn key_index_props<V>(es: Seq<(Seq<char>, V)>, k: Seq<char>)
    ensures
        -1 <= key_index(es, k) < es.len(),
        key_index(es, k) >= 0 ==> es[key_index(es, k)].0 == k,
        forall|j: int| key_index(es, k) < j < es.len() ==> es[j].0 != k,
    decreases es.len(),
{
    if es.len() > 0 && es.last().0 != k {
        key_index_props(es.drop_last(), k);
        assert forall|j: int| key_index(es, k) < j < es.len() implies es[j].0 != k by {
            if j < es.len() - 1 {
                assert(es[j] == es.drop_last()[j]);
            }
        }
    }
}

proof fn key_index_same_keys<V>(a: Seq<(Seq<char>, V)>, b: Seq<(Seq<char>, V)>, k: Seq<char>)
    requires
        a.len() == b.len(),
        forall|j: int| 0 <= j < a.len() ==> a[j].0 == b[j].0,
    ensures
        key_index(a, k) == key_index(b, k),
    decreases a.len(),
{
    if a.len() > 0 {
        key_index_same_keys(a.drop_last(), b.drop_last(), k);
    }
}

/// Setting a key, then looking up a key, gives the value just set for the
/// same key and the earlier value for any other key.
pub proof fn lookup_insert_entry<V>(es: Seq<(Seq<char>, V)>, k: Seq<char>, v: V, q: Seq<char>)
    ensures
        lookup(insert_entry(es, k, v), q) == (if q == k {
            Some(v)
        } else {
            lookup(es, q)
        }),
{
    let i = key_index(es, k);
    key_index_props(es, k);
    key_index_props(es, q);
    if i >= 0 {
        let u = es.update(i, (k, v));
        key_index_same_keys(u, es, q);
    } else {
        let u = es.push((k, v));
        assert(u.drop_last() =~= es);
    }
}

/// After setting several entries in order, a key that one of them sets has
/// the value of the last entry that sets it; any other key keeps its value.
pub proof fn lookup_insert_all<V>(es: Seq<(Seq<char>, V)>, xs: Seq<(Seq<char>, V)>, q: Seq<char>)
    ensures
        lookup(insert_all(es, xs), q) == (if key_index(xs, q) >= 0 {
            Some(xs[key_index(xs, q)].1)
        } else {
            lookup(es, q)
        }),
    decreases xs.len(),
{
    if xs.len() > 0 {
        lookup_insert_all(es, xs.drop_last(), q);
        lookup_insert_entry(insert_all(es, xs.drop_last()), xs.last().0, xs.last().1, q);
        key_index_props(xs.drop_last(), q);
        if xs.last().0 != q && key_index(xs, q) >= 0 {
            assert(xs[key_index(xs, q)] == xs.drop_last()[key_index(xs, q)]);
        }
    }
}

/// Setting the entries of `a`, then those of `b`, is setting those of `a + b`.
pub proof fn insert_all_append<V>(es: Seq<(Seq<char>, V)>, a: Seq<(Seq<char>, V)>, b: Seq<(Seq<char>, V)>)
    ensures
        insert_all(insert_all(es, a), b) == insert_all(es, a + b),
    decreases b.len(),
{
    if b.len() > 0 {
        insert_all_append(es, a, b.drop_last());
        assert((a + b).drop_last() =~= a + b.drop_last());
    } else {
        assert(a + b =~= a);
    }
}

/// Setting a key keeps keys unique.
pub proof fn insert_entry_unique<V>(es: Seq<(Seq<char>, V)>, k: Seq<char>, v: V)
    requires
        unique_keys(es),
    ensures
        unique_keys(insert_entry(es, k, v)),
{
    key_index_props(es, k);
    let u = insert_entry(es, k, v);
    if key_index(es, k) < 0 {
        assert forall|i: int, j: int| 0 <= i < j < u.len() implies u[i].0 != u[j].0 by {
            if j == es.len() {
                assert(u[i].0 == es[i].0);
                if es[i].0 == k {
                    key_index_props(es, k);
                }
            }
        }
    }
}

/// Sets key `k` to `v`.
pub fn set_entry<T: View>(es: &mut Vec<(String, T)>, k: String, v: T)
    ensures
        pairs_view(final(es)@) == insert_entry(pairs_view(old(es)@), k@, v@),
{
    let ghost before = pairs_view(es@);
    proof {
        key_index_props(before, k@);
    }
    let mut i: usize = es.len();
    while i > 0
        invariant
            i <= es@.len(),
            before == pairs_view(es@),
            before == pairs_view(old(es)@),
            forall|j: int| i <= j < es@.len() ==> before[j].0 != k@,
            key_index(before, k@) < i,
            -1 <= key_index(before, k@) < before.len(),
            key_index(before, k@) >= 0 ==> before[key_index(before, k@)].0 == k@,
        decreases i,
    {
        if str_eq(es[i - 1].0.as_str(), k.as_str()) {
            assert(before[i - 1].0 == es@[i - 1].0@);
            proof {
                if key_index(before, k@) < i - 1 {
                    key_index_props(before, k@);
                }
            }
            assert(key_index(before, k@) == i - 1);
            let ghost kv = k@;
            let ghost vv = v@;
            es.set(i - 1, (k, v));
            assert(pairs_view(es@) =~= before.update(i - 1, (kv, vv)));
            return;
        }
        i = i - 1;
    }
    let ghost kv = k@;
    let ghost vv = v@;
    es.push((k, v));
    assert(pairs_view(es@) =~= before.push((kv, vv)));
}

} // verus!
