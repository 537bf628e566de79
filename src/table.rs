//! Finite maps kept as sequences of entries: the map that a sequence stands
//! for, and the facts about it that the registries rely on.
use vstd::prelude::*;

verus! {

/// The map that a sequence of entries stands for: each entry binds its key to
/// its value, and a later entry overrides an earlier one.
pub open spec fn map_of<T, K, V>(s: Seq<T>, key: spec_fn(T) -> K, val: spec_fn(T) -> V) -> Map<K, V>
    decreases s.len(),
{
    if s.len() == 0 {
        Map::empty()
    } else {
        map_of(s.drop_last(), key, val).insert(key(s.last()), val(s.last()))
    }
}

/// No two entries share a key.
pub open spec fn unique_keys<T, K>(s: Seq<T>, key: spec_fn(T) -> K) -> bool {
    forall|i: int, j: int|
        0 <= i < s.len() && 0 <= j < s.len() && i != j ==> key(#[trigger] s[i]) != key(#[trigger] s[j])
}

pub proof fn lemma_map_of_dom<T, K, V>(s: Seq<T>, key: spec_fn(T) -> K, val: spec_fn(T) -> V, k: K)
    ensures
        map_of(s, key, val).dom().contains(k) <==> exists|i: int| 0 <= i < s.len() && key(s[i]) == k,
    decreases s.len(),
{
    if s.len() > 0 {
        let d = s.drop_last();
        lemma_map_of_dom(d, key, val, k);
        if exists|i: int| 0 <= i < s.len() && key(s[i]) == k {
            let i = choose|i: int| 0 <= i < s.len() && key(s[i]) == k;
            if i < s.len() - 1 {
                assert(d[i] == s[i]);
            }
        }
        if exists|i: int| 0 <= i < d.len() && key(d[i]) == k {
            let i = choose|i: int| 0 <= i < d.len() && key(d[i]) == k;
            assert(s[i] == d[i]);
        }
    }
}

pub proof fn lemma_map_of_at<T, K, V>(s: Seq<T>, key: spec_fn(T) -> K, val: spec_fn(T) -> V, i: int)
    requires
        unique_keys(s, key),
        0 <= i < s.len(),
    ensures
        map_of(s, key, val).dom().contains(key(s[i])),
        map_of(s, key, val)[key(s[i])] == val(s[i]),
    decreases s.len(),
{
    let d = s.drop_last();
    if i < s.len() - 1 {
        assert(d[i] == s[i]);
        assert(unique_keys(d, key)) by {
            assert forall|a: int, b: int|
                0 <= a < d.len() && 0 <= b < d.len() && a != b implies key(#[trigger] d[a]) != key(
                #[trigger] d[b],
            ) by {
                assert(d[a] == s[a] && d[b] == s[b]);
            }
        }
        lemma_map_of_at(d, key, val, i);
        assert(key(s.last()) != key(s[i]));
    }
}

pub proof fn lemma_map_of_push<T, K, V>(s: Seq<T>, key: spec_fn(T) -> K, val: spec_fn(T) -> V, x: T)
    ensures
        map_of(s.push(x), key, val) == map_of(s, key, val).insert(key(x), val(x)),
{
    assert(s.push(x).drop_last() =~= s);
}

pub proof fn lemma_map_of_remove<T, K, V>(s: Seq<T>, key: spec_fn(T) -> K, val: spec_fn(T) -> V, i: int)
    requires
        unique_keys(s, key),
        0 <= i < s.len(),
    ensures
        map_of(s.remove(i), key, val) == map_of(s, key, val).remove(key(s[i])),
        unique_keys(s.remove(i), key),
    decreases s.len(),
{
    let r = s.remove(i);
    let d = s.drop_last();
    let k = key(s[i]);
    assert(unique_keys(r, key)) by {
        assert forall|a: int, b: int|
            0 <= a < r.len() && 0 <= b < r.len() && a != b implies key(#[trigger] r[a]) != key(
            #[trigger] r[b],
        ) by {
            let a2 = if a < i { a } else { a + 1 };
            let b2 = if b < i { b } else { b + 1 };
            assert(r[a] == s[a2] && r[b] == s[b2]);
        }
    }
    assert(unique_keys(d, key)) by {
        assert forall|a: int, b: int|
            0 <= a < d.len() && 0 <= b < d.len() && a != b implies key(#[trigger] d[a]) != key(
            #[trigger] d[b],
        ) by {
            assert(d[a] == s[a] && d[b] == s[b]);
        }
    }
    if i == s.len() - 1 {
        assert(r =~= d);
        lemma_map_of_dom(d, key, val, k);
        assert forall|j: int| 0 <= j < d.len() implies key(d[j]) != k by {
            assert(d[j] == s[j]);
        }
        assert(map_of(r, key, val) =~= map_of(s, key, val).remove(k));
    } else {
        lemma_map_of_remove(d, key, val, i);
        assert(r.drop_last() =~= d.remove(i));
        assert(r.last() == s.last());
        assert(key(s.last()) != k);
        assert(map_of(r, key, val) =~= map_of(s, key, val).remove(k));
    }
}

} // verus!
