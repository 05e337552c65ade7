use vstd::prelude::*;

verus! {

/// The abstract content of an ordered parameter list: keys and values as views.
pub open spec fn model<T: View>(ps: Seq<(String, T)>) -> Seq<(Seq<char>, T::V)> {
    ps.map_values(|p: (String, T)| (p.0@, p.1@))
}

/// The keys of an abstract parameter list, in order.
pub open spec fn keys<V>(m: Seq<(Seq<char>, V)>) -> Seq<Seq<char>> {
    m.map_values(|p: (Seq<char>, V)| p.0)
}

/// No key occurs twice.
pub open spec fn unique_keys<V>(m: Seq<(Seq<char>, V)>) -> bool {
    forall|i: int, j: int| 0 <= i < j < m.len() ==> m[i].0 != m[j].0
}

/// Whether key `k` occurs in `m`.
pub open spec fn has_key<V>(m: Seq<(Seq<char>, V)>, k: Seq<char>) -> bool {
    exists|i: int| 0 <= i < m.len() && m[i].0 == k
}

/// Setting `k` to `v`: the entry with key `k` gets the new value in place;
/// without one, the pair is appended.
pub open spec fn upsert<V>(m: Seq<(Seq<char>, V)>, k: Seq<char>, v: V) -> Seq<(Seq<char>, V)> {
    if has_key(m, k) {
        let i = choose|i: int| 0 <= i < m.len() && m[i].0 == k;
        m.update(i, (k, v))
    } else {
        m.push((k, v))
    }
}

/// Setting each pair of `ps` in turn, starting from `m`.
pub open spec fn upsert_all<V>(m: Seq<(Seq<char>, V)>, ps: Seq<(Seq<char>, V)>) -> Seq<(Seq<char>, V)>
    decreases ps.len(),
{
    if ps.len() == 0 {
        m
    } else {
        upsert(upsert_all(m, ps.drop_last()), ps.last().0, ps.last().1)
    }
}

/// The value stored under `k`, if any.
pub open spec fn lookup<V>(m: Seq<(Seq<char>, V)>, k: Seq<char>) -> Option<V> {
    if has_key(m, k) {
        let i = choose|i: int| 0 <= i < m.len() && m[i].0 == k;
        Some(m[i].1)
    } else {
        None
    }
}

/// Setting a key keeps the keys unique and makes the key map to the new value.
pub proof fn lemma_upsert<V>(m: Seq<(Seq<char>, V)>, k: Seq<char>, v: V)
    requires
        unique_keys(m),
    ensures
        unique_keys(upsert(m, k, v)),
        has_key(upsert(m, k, v), k),
        lookup(upsert(m, k, v), k) == Some(v),
        has_key(m, k) ==> upsert(m, k, v).len() == m.len() && keys(upsert(m, k, v)) == keys(m),
        !has_key(m, k) ==> upsert(m, k, v).len() == m.len() + 1 && keys(upsert(m, k, v))
            == keys(m).push(k),
        forall|j: Seq<char>| j != k ==> lookup(#[trigger] upsert(m, k, v), j) == lookup(m, j),
{
    let r = upsert(m, k, v);
    if has_key(m, k) {
        let i = choose|i: int| 0 <= i < m.len() && m[i].0 == k;
        assert(r[i].0 == k);
        assert(keys(r) =~= keys(m));
        assert forall|j: Seq<char>| j != k implies lookup(r, j) == lookup(m, j) by {
            if has_key(m, j) {
                let a = choose|a: int| 0 <= a < m.len() && m[a].0 == j;
                assert(r[a].0 == j);
                let b = choose|b: int| 0 <= b < r.len() && r[b].0 == j;
                assert(b == a);
            } else {
                assert forall|b: int| 0 <= b < r.len() implies r[b].0 != j by {
                    if b != i {
                        assert(r[b] == m[b]);
                    }
                }
            }
        }
    } else {
        let n = m.len() as int;
        assert(r[n].0 == k);
        assert(keys(r) =~= keys(m).push(k));
        assert forall|j: Seq<char>| j != k implies lookup(r, j) == lookup(m, j) by {
            if has_key(m, j) {
                let a = choose|a: int| 0 <= a < m.len() && m[a].0 == j;
                assert(r[a].0 == j);
                let b = choose|b: int| 0 <= b < r.len() && r[b].0 == j;
                assert(b == a);
            } else {
                assert forall|b: int| 0 <= b < r.len() implies r[b].0 != j by {
                    if b < n {
                        assert(r[b] == m[b]);
                    }
                }
            }
        }
    }
}

/// Writes `v` under `key` in `ps`, as `upsert` describes.
pub fn set_param<T: View>(ps: &mut Vec<(String, T)>, key: String, v: T)
    requires
        unique_keys(model(old(ps)@)),
    ensures
        model(final(ps)@) == upsert(model(old(ps)@), key@, v@),
        unique_keys(model(final(ps)@)),
{
    let ghost m = model(ps@);
    proof {
        lemma_upsert(m, key@, v@);
    }
    let n = ps.len();
    let mut i: usize = 0;
    while i < n
        invariant
            n == ps.len(),
            m == model(ps@),
            m == model(old(ps)@),
            unique_keys(m),
            i <= n,
            forall|j: int| 0 <= j < i ==> m[j].0 != key@,
        decreases n - i,
    {
        if ps[i].0 == key {
            assert(m[i as int].0 == key@);
            let ghost c = choose|c: int| 0 <= c < m.len() && m[c].0 == key@;
            assert(c == i);
            ps.set(i, (key, v));
            assert(model(ps@) =~= upsert(m, key@, v@));
            return;
        }
        i = i + 1;
    }
    assert(!has_key(m, key@));
    ps.push((key, v));
    assert(model(ps@) =~= upsert(m, key@, v@));
}

} // verus!

verus! {

/// Setting the same key twice overwrites: the second setting leaves the
/// same keys, in the same order, as the first, and the key then holds the
/// second value.
pub proof fn lemma_set_twice_overwrites<V>(m: Seq<(Seq<char>, V)>, k: Seq<char>, v1: V, v2: V)
    requires
        unique_keys(m),
    ensures
        upsert(upsert(m, k, v1), k, v2).len() == upsert(m, k, v1).len(),
        keys(upsert(upsert(m, k, v1), k, v2)) == keys(upsert(m, k, v1)),
        unique_keys(upsert(upsert(m, k, v1), k, v2)),
        lookup(upsert(upsert(m, k, v1), k, v2), k) == Some(v2),
{
    lemma_upsert(m, k, v1);
    lemma_upsert(upsert(m, k, v1), k, v2);
}

} // verus!
