use vstd::prelude::*;

verus! {

/// The map from key to entry that a sequence of entries stands for; a later
/// entry shadows an earlier one with the same key.
pub open spec fn index_by<K, T>(s: Seq<T>, key: spec_fn(T) -> K) -> Map<K, T>
    decreases s.len(),
{
    if s.len() == 0 {
        Map::empty()
    } else {
        index_by(s.drop_last(), key).insert(key(s.last()), s.last())
    }
}

/// No two entries of `s` have the same key.
pub open spec fn distinct_keys<K, T>(s: Seq<T>, key: spec_fn(T) -> K) -> bool {
    forall|i: int, j: int|
        0 <= i < s.len() && 0 <= j < s.len() && i != j ==> key(s[i]) != key(s[j])
}

pub proof fn lemma_index_by_dom<K, T>(s: Seq<T>, key: spec_fn(T) -> K, k: K)
    ensures
        index_by(s, key).contains_key(k) <==> exists|i: int| 0 <= i < s.len() && key(s[i]) == k,
    decreases s.len(),
{
    if s.len() > 0 {
        lemma_index_by_dom(s.drop_last(), key, k);
        if index_by(s, key).contains_key(k) && key(s.last()) != k {
            let i = choose|i: int| 0 <= i < s.len() - 1 && key(s.drop_last()[i]) == k;
            assert(key(s[i]) == k);
        }
        if exists|i: int| 0 <= i < s.len() && key(s[i]) == k {
            let i = choose|i: int| 0 <= i < s.len() && key(s[i]) == k;
            if i < s.len() - 1 {
                assert(key(s.drop_last()[i]) == k);
            }
        }
    }
}

pub proof fn lemma_index_by_at<K, T>(s: Seq<T>, key: spec_fn(T) -> K, i: int)
    requires
        distinct_keys(s, key),
        0 <= i < s.len(),
    ensures
        index_by(s, key).contains_key(key(s[i])),
        index_by(s, key)[key(s[i])] == s[i],
    decreases s.len(),
{
    if i < s.len() - 1 {
        let d = s.drop_last();
        assert(d[i] == s[i]);
        assert(distinct_keys(d, key));
        lemma_index_by_at(d, key, i);
        assert(key(s.last()) != key(s[i]));
    }
}

pub proof fn lemma_index_by_push<K, T>(s: Seq<T>, key: spec_fn(T) -> K, x: T)
    ensures
        index_by(s.push(x), key) == index_by(s, key).insert(key(x), x),
{
    assert(s.push(x).drop_last() =~= s);
}

pub proof fn lemma_distinct_push<K, T>(s: Seq<T>, key: spec_fn(T) -> K, x: T)
    requires
        distinct_keys(s, key),
        !index_by(s, key).contains_key(key(x)),
    ensures
        distinct_keys(s.push(x), key),
{
    lemma_index_by_dom(s, key, key(x));
    assert forall|i: int, j: int|
        0 <= i < s.push(x).len() && 0 <= j < s.push(x).len() && i != j implies key(
            s.push(x)[i],
        ) != key(s.push(x)[j]) by {
        if i == s.len() {
            assert(key(s[j]) != key(x));
        } else if j == s.len() {
            assert(key(s[i]) != key(x));
        }
    }
}

pub proof fn lemma_index_by_update<K, T>(s: Seq<T>, key: spec_fn(T) -> K, i: int, x: T)
    requires
        distinct_keys(s, key),
        0 <= i < s.len(),
        key(x) == key(s[i]),
    ensures
        index_by(s.update(i, x), key) == index_by(s, key).insert(key(x), x),
        distinct_keys(s.update(i, x), key),
    decreases s.len(),
{
    let u = s.update(i, x);
    assert forall|a: int, b: int|
        0 <= a < u.len() && 0 <= b < u.len() && a != b implies key(u[a]) != key(u[b]) by {
        assert(key(u[a]) == key(s[a]));
        assert(key(u[b]) == key(s[b]));
    }
    if i == s.len() - 1 {
        assert(u.drop_last() =~= s.drop_last());
        assert(index_by(u, key) =~= index_by(s, key).insert(key(x), x));
    } else {
        let d = s.drop_last();
        assert(distinct_keys(d, key));
        assert(u.drop_last() =~= d.update(i, x));
        lemma_index_by_update(d, key, i, x);
        assert(key(s.last()) != key(x));
        assert(index_by(u, key) =~= index_by(s, key).insert(key(x), x));
    }
}

} // verus!
