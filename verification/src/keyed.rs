//! Lists of entries keyed by text, read as maps: the shared reasoning behind
//! the connection registry, the room table and the clients of a room.
//!
//! vstd specifies `std::collections::HashMap` only for key types that obey
//! its key model, which it grants to integers and `bool` but not to
//! `String`; a map keyed by user or room ids is therefore kept as a list
//! whose keys are unique, viewed as a `Map`.

use vstd::prelude::*;

verus! {

/// Whether some entry of `s` has key `k`.
pub open spec fn keyed_has<E>(s: Seq<E>, key: spec_fn(E) -> Seq<char>, k: Seq<char>) -> bool {
    exists|i: int| 0 <= i < s.len() && key(#[trigger] s[i]) == k
}

/// An entry of `s` with key `k`: the only one when keys are unique.
pub open spec fn keyed_index<E>(s: Seq<E>, key: spec_fn(E) -> Seq<char>, k: Seq<char>) -> int {
    choose|i: int| 0 <= i < s.len() && key(#[trigger] s[i]) == k
}

/// No two entries of `s` share a key.
pub open spec fn keys_unique<E>(s: Seq<E>, key: spec_fn(E) -> Seq<char>) -> bool {
    forall|i: int, j: int|
        0 <= i < s.len() && 0 <= j < s.len() && i != j ==> key(#[trigger] s[i]) != key(
            #[trigger] s[j],
        )
}

/// The map from each key to the value of its entry.
pub open spec fn keyed_view<E, V>(s: Seq<E>, key: spec_fn(E) -> Seq<char>, val: spec_fn(E) -> V) -> Map<
    Seq<char>,
    V,
> {
    Map::new(|k: Seq<char>| keyed_has(s, key, k), |k: Seq<char>| val(s[keyed_index(s, key, k)]))
}

/// With unique keys, the entry found for a key is the one at its position.
pub proof fn lemma_keyed_index<E>(s: Seq<E>, key: spec_fn(E) -> Seq<char>, i: int)
    requires
        keys_unique(s, key),
        0 <= i < s.len(),
    ensures
        keyed_has(s, key, key(s[i])),
        keyed_index(s, key, key(s[i])) == i,
{
    let k = key(s[i]);
    assert(keyed_has(s, key, k));
    let j = keyed_index(s, key, k);
    assert(key(s[j]) == k);
}

/// Replacing the entry at `i` by one with the same key changes the map at
/// that key only.
pub proof fn lemma_keyed_update<E, V>(
    s: Seq<E>,
    key: spec_fn(E) -> Seq<char>,
    val: spec_fn(E) -> V,
    i: int,
    e: E,
)
    requires
        keys_unique(s, key),
        0 <= i < s.len(),
        key(e) == key(s[i]),
    ensures
        keys_unique(s.update(i, e), key),
        keyed_view(s.update(i, e), key, val) == keyed_view(s, key, val).insert(key(e), val(e)),
{
    let t = s.update(i, e);
    assert forall|a: int, b: int| 0 <= a < t.len() && 0 <= b < t.len() && a != b implies key(
        #[trigger] t[a],
    ) != key(#[trigger] t[b]) by {
        assert(key(t[a]) == key(s[a]));
        assert(key(t[b]) == key(s[b]));
    }
    let om = keyed_view(s, key, val);
    let nm = keyed_view(t, key, val);
    let target = om.insert(key(e), val(e));
    lemma_keyed_index(s, key, i);
    lemma_keyed_index(t, key, i);
    assert forall|q: Seq<char>| #![auto] nm.contains_key(q) == target.contains_key(q) by {
        if keyed_has(t, key, q) {
            let a = choose|a: int| 0 <= a < t.len() && key(#[trigger] t[a]) == q;
            assert(key(s[a]) == q);
        }
        if keyed_has(s, key, q) {
            let a = choose|a: int| 0 <= a < s.len() && key(#[trigger] s[a]) == q;
            assert(key(t[a]) == q);
        }
    }
    assert forall|q: Seq<char>| #![auto] nm.contains_key(q) implies nm[q] == target[q] by {
        let a = choose|a: int| 0 <= a < t.len() && key(#[trigger] t[a]) == q;
        lemma_keyed_index(t, key, a);
        assert(key(s[a]) == q);
        lemma_keyed_index(s, key, a);
    }
    assert(nm =~= target);
}

/// Appending an entry with a new key adds that key to the map.
pub proof fn lemma_keyed_push<E, V>(s: Seq<E>, key: spec_fn(E) -> Seq<char>, val: spec_fn(E) -> V, e: E)
    requires
        keys_unique(s, key),
        !keyed_has(s, key, key(e)),
    ensures
        keys_unique(s.push(e), key),
        keyed_view(s.push(e), key, val) == keyed_view(s, key, val).insert(key(e), val(e)),
{
    let t = s.push(e);
    let last = s.len() as int;
    assert forall|a: int, b: int| 0 <= a < t.len() && 0 <= b < t.len() && a != b implies key(
        #[trigger] t[a],
    ) != key(#[trigger] t[b]) by {
        if a != last && b != last {
            assert(t[a] == s[a]);
            assert(t[b] == s[b]);
        } else if a == last {
            assert(t[b] == s[b]);
        } else {
            assert(t[a] == s[a]);
        }
    }
    let om = keyed_view(s, key, val);
    let nm = keyed_view(t, key, val);
    let target = om.insert(key(e), val(e));
    lemma_keyed_index(t, key, last);
    assert forall|q: Seq<char>| #![auto] nm.contains_key(q) == target.contains_key(q) by {
        if keyed_has(t, key, q) && q != key(e) {
            let a = choose|a: int| 0 <= a < t.len() && key(#[trigger] t[a]) == q;
            assert(a != last);
            assert(key(s[a]) == q);
        }
        if keyed_has(s, key, q) {
            let a = choose|a: int| 0 <= a < s.len() && key(#[trigger] s[a]) == q;
            assert(key(t[a]) == q);
        }
    }
    assert forall|q: Seq<char>| #![auto] nm.contains_key(q) implies nm[q] == target[q] by {
        let a = choose|a: int| 0 <= a < t.len() && key(#[trigger] t[a]) == q;
        lemma_keyed_index(t, key, a);
        if a != last {
            assert(t[a] == s[a]);
            lemma_keyed_index(s, key, a);
        }
    }
    assert(nm =~= target);
}

/// Removing the entry at `i` removes its key from the map.
pub proof fn lemma_keyed_remove<E, V>(
    s: Seq<E>,
    key: spec_fn(E) -> Seq<char>,
    val: spec_fn(E) -> V,
    i: int,
)
    requires
        keys_unique(s, key),
        0 <= i < s.len(),
    ensures
        keys_unique(s.remove(i), key),
        keyed_view(s.remove(i), key, val) == keyed_view(s, key, val).remove(key(s[i])),
{
    let t = s.remove(i);
    let k = key(s[i]);
    assert forall|a: int, b: int| 0 <= a < t.len() && 0 <= b < t.len() && a != b implies key(
        #[trigger] t[a],
    ) != key(#[trigger] t[b]) by {
        let sa = if a < i { a } else { a + 1 };
        let sb = if b < i { b } else { b + 1 };
        assert(t[a] == s[sa]);
        assert(t[b] == s[sb]);
    }
    let om = keyed_view(s, key, val);
    let nm = keyed_view(t, key, val);
    let target = om.remove(k);
    lemma_keyed_index(s, key, i);
    assert forall|q: Seq<char>| #![auto] nm.contains_key(q) == target.contains_key(q) by {
        if keyed_has(t, key, q) {
            let a = choose|a: int| 0 <= a < t.len() && key(#[trigger] t[a]) == q;
            let sa = if a < i { a } else { a + 1 };
            assert(t[a] == s[sa]);
            assert(key(s[sa]) == q);
        }
        if keyed_has(s, key, q) && q != k {
            let a = choose|a: int| 0 <= a < s.len() && key(#[trigger] s[a]) == q;
            assert(a != i);
            let ta = if a < i { a } else { a - 1 };
            assert(t[ta] == s[a]);
        }
    }
    assert forall|q: Seq<char>| #![auto] nm.contains_key(q) implies nm[q] == target[q] by {
        let a = choose|a: int| 0 <= a < t.len() && key(#[trigger] t[a]) == q;
        lemma_keyed_index(t, key, a);
        let sa = if a < i { a } else { a + 1 };
        assert(t[a] == s[sa]);
        lemma_keyed_index(s, key, sa);
    }
    assert(nm =~= target);
}

} // verus!
