use vstd::prelude::*;

verus! {

/// The first element of `s` whose key under `key` equals `k`, or `None` if
/// no element matches.
pub open spec fn find_by<T, K>(s: Seq<T>, key: spec_fn(T) -> K, k: K) -> Option<T>
    decreases s.len(),
{
    if s.len() == 0 {
        None
    } else if key(s[0]) == k {
        Some(s[0])
    } else {
        find_by(s.drop_first(), key, k)
    }
}

/// Whether the keys of the elements of `s` are pairwise distinct.
pub open spec fn unique_keys<T, K>(s: Seq<T>, key: spec_fn(T) -> K) -> bool {
    forall|i: int, j: int| 0 <= i < j < s.len() ==> key(s[i]) != key(s[j])
}

/// Unfolding `find_by` over the suffix that starts at `i`: it finds `s[i]`
/// if that element matches, and otherwise continues with the suffix that
/// starts at `i + 1`.
pub proof fn lemma_find_by_skip<T, K>(s: Seq<T>, key: spec_fn(T) -> K, k: K, i: int)
    requires
        0 <= i < s.len(),
    ensures
        find_by(s.skip(i), key, k) == if key(s[i]) == k {
            Some(s[i])
        } else {
            find_by(s.skip(i + 1), key, k)
        },
{
    assert(s.skip(i)[0] == s[i]);
    assert(s.skip(i).drop_first() =~= s.skip(i + 1));
}

/// A search finds the first matching element.
pub proof fn lemma_find_by_first<T, K>(s: Seq<T>, key: spec_fn(T) -> K, k: K, i: int)
    requires
        0 <= i < s.len(),
        key(s[i]) == k,
        forall|j: int| 0 <= j < i ==> key(#[trigger] s[j]) != k,
    ensures
        find_by(s, key, k) == Some(s[i]),
    decreases i,
{
    if i == 0 {
    } else {
        assert(key(s[0]) != k);
        assert forall|j: int| 0 <= j < i - 1 implies key(#[trigger] s.drop_first()[j]) != k by {
            assert(s.drop_first()[j] == s[j + 1]);
        }
        assert(s.drop_first()[i - 1] == s[i]);
        lemma_find_by_first(s.drop_first(), key, k, i - 1);
    }
}

/// A search fails exactly when no element matches.
pub proof fn lemma_find_by_none<T, K>(s: Seq<T>, key: spec_fn(T) -> K, k: K)
    ensures
        (find_by(s, key, k) is None) <==> (forall|j: int| 0 <= j < s.len() ==> key(
            #[trigger] s[j],
        ) != k),
    decreases s.len(),
{
    if s.len() == 0 {
    } else {
        lemma_find_by_none(s.drop_first(), key, k);
        assert forall|j: int| 0 <= j < s.drop_first().len() implies s.drop_first()[j] == s[j + 1] by {}
        if key(s[0]) != k && (find_by(s.drop_first(), key, k) is None) {
            assert forall|j: int| 0 <= j < s.len() implies key(#[trigger] s[j]) != k by {
                if j > 0 {
                    assert(s[j] == s.drop_first()[j - 1]);
                }
            }
        }
    }
}

/// Under pairwise-distinct keys, a search finds any matching element.
pub proof fn lemma_find_by_unique<T, K>(s: Seq<T>, key: spec_fn(T) -> K, k: K, i: int)
    requires
        unique_keys(s, key),
        0 <= i < s.len(),
        key(s[i]) == k,
    ensures
        find_by(s, key, k) == Some(s[i]),
{
    assert forall|j: int| 0 <= j < i implies key(#[trigger] s[j]) != k by {}
    lemma_find_by_first(s, key, k, i);
}

/// How appending one element changes every search: a hit in `s` is
/// unchanged, and a miss now finds the new element exactly on its key.
pub proof fn lemma_find_by_push<T, K>(s: Seq<T>, key: spec_fn(T) -> K, k: K, e: T)
    ensures
        find_by(s.push(e), key, k) == if find_by(s, key, k) is Some {
            find_by(s, key, k)
        } else if key(e) == k {
            Some(e)
        } else {
            None
        },
    decreases s.len(),
{
    if s.len() == 0 {
        assert(s.push(e)[0] == e);
        assert(s.push(e).drop_first() =~= Seq::<T>::empty());
        assert(find_by(s, key, k) is None);
        if key(e) == k {
            assert(find_by(s.push(e), key, k) == Some(e));
        } else {
            assert(find_by(s.push(e), key, k) == find_by(Seq::<T>::empty(), key, k));
            assert(find_by(Seq::<T>::empty(), key, k) is None);
        }
    } else {
        assert(s.push(e)[0] == s[0]);
        assert(s.push(e).drop_first() =~= s.drop_first().push(e));
        lemma_find_by_push(s.drop_first(), key, k, e);
        if key(s[0]) == k {
            assert(find_by(s.push(e), key, k) == Some(s[0]));
            assert(find_by(s, key, k) == Some(s[0]));
        } else {
            assert(find_by(s.push(e), key, k) == find_by(s.drop_first().push(e), key, k));
            assert(find_by(s, key, k) == find_by(s.drop_first(), key, k));
        }
    }
}

/// How replacing the first element that carries some key changes every
/// search: searches for that key now find the replacement, all others are
/// unchanged.
pub proof fn lemma_find_by_update<T, K>(s: Seq<T>, key: spec_fn(T) -> K, k: K, i: int, e: T)
    requires
        0 <= i < s.len(),
        key(e) == key(s[i]),
        forall|j: int| 0 <= j < i ==> key(#[trigger] s[j]) != key(s[i]),
    ensures
        find_by(s.update(i, e), key, k) == if k == key(e) {
            Some(e)
        } else {
            find_by(s, key, k)
        },
    decreases i,
{
    let t = s.update(i, e);
    if i == 0 {
        assert(t[0] == e);
        if k != key(e) {
            assert(t.drop_first() =~= s.drop_first());
        }
    } else {
        assert(t[0] == s[0]);
        assert(key(s[0]) != key(s[i]));
        assert(t.drop_first() =~= s.drop_first().update(i - 1, e));
        assert forall|j: int| 0 <= j < i - 1 implies key(#[trigger] s.drop_first()[j]) != key(
            s.drop_first()[i - 1],
        ) by {
            assert(s.drop_first()[j] == s[j + 1]);
            assert(s.drop_first()[i - 1] == s[i]);
        }
        assert(s.drop_first()[i - 1] == s[i]);
        lemma_find_by_update(s.drop_first(), key, k, i - 1, e);
    }
}

/// How removing the first element that carries some key changes every
/// search, under pairwise-distinct keys: searches for that key now fail,
/// all others are unchanged.
pub proof fn lemma_find_by_remove<T, K>(s: Seq<T>, key: spec_fn(T) -> K, k: K, i: int)
    requires
        unique_keys(s, key),
        0 <= i < s.len(),
    ensures
        find_by(s.remove(i), key, k) == if k == key(s[i]) {
            None::<T>
        } else {
            find_by(s, key, k)
        },
    decreases i,
{
    let t = s.remove(i);
    if i == 0 {
        assert(t =~= s.drop_first());
        if k == key(s[0]) {
            lemma_find_by_none(s.drop_first(), key, k);
            assert forall|j: int| 0 <= j < s.drop_first().len() implies key(
                #[trigger] s.drop_first()[j],
            ) != k by {
                assert(s.drop_first()[j] == s[j + 1]);
            }
        }
    } else {
        assert(t[0] == s[0]);
        assert(t.drop_first() =~= s.drop_first().remove(i - 1));
        assert forall|a: int, b: int| 0 <= a < b < s.drop_first().len() implies key(
            #[trigger] s.drop_first()[a],
        ) != key(#[trigger] s.drop_first()[b]) by {
            assert(s.drop_first()[a] == s[a + 1]);
            assert(s.drop_first()[b] == s[b + 1]);
        }
        assert(s.drop_first()[i - 1] == s[i]);
        lemma_find_by_remove(s.drop_first(), key, k, i - 1);
        if k == key(s[i]) {
            assert(key(s[0]) != key(s[i]));
        }
    }
}

/// Appending an element with a fresh key keeps keys pairwise distinct.
pub proof fn lemma_unique_push<T, K>(s: Seq<T>, key: spec_fn(T) -> K, e: T)
    requires
        unique_keys(s, key),
        forall|j: int| 0 <= j < s.len() ==> key(#[trigger] s[j]) != key(e),
    ensures
        unique_keys(s.push(e), key),
{
    let t = s.push(e);
    assert forall|i: int, j: int| 0 <= i < j < t.len() implies key(#[trigger] t[i]) != key(
        #[trigger] t[j],
    ) by {
        if j < s.len() {
            assert(t[i] == s[i] && t[j] == s[j]);
        } else {
            assert(t[i] == s[i] && t[j] == e);
        }
    }
}

/// Replacing an element by one with the same key keeps keys pairwise
/// distinct.
pub proof fn lemma_unique_update<T, K>(s: Seq<T>, key: spec_fn(T) -> K, i: int, e: T)
    requires
        unique_keys(s, key),
        0 <= i < s.len(),
        key(e) == key(s[i]),
    ensures
        unique_keys(s.update(i, e), key),
{
    let t = s.update(i, e);
    assert forall|a: int, b: int| 0 <= a < b < t.len() implies key(#[trigger] t[a]) != key(
        #[trigger] t[b],
    ) by {
        assert(key(t[a]) == key(s[a]) && key(t[b]) == key(s[b]));
    }
}

/// Removing an element keeps keys pairwise distinct.
pub proof fn lemma_unique_remove<T, K>(s: Seq<T>, key: spec_fn(T) -> K, i: int)
    requires
        unique_keys(s, key),
        0 <= i < s.len(),
    ensures
        unique_keys(s.remove(i), key),
{
    let t = s.remove(i);
    assert forall|a: int, b: int| 0 <= a < b < t.len() implies key(#[trigger] t[a]) != key(
        #[trigger] t[b],
    ) by {
        let a0: int = if a < i {
            a
        } else {
            a + 1
        };
        let b0: int = if b < i {
            b
        } else {
            b + 1
        };
        assert(t[a] == s[a0] && t[b] == s[b0]);
    }
}

} // verus!
