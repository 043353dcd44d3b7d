//! Sequences whose elements carry distinct name keys, read as maps from name to element.
use vstd::prelude::*;

verus! {

/// An element that is found by a name.
pub trait Keyed {
    /// The name under which the element is found.
    spec fn key(&self) -> Seq<char>;
}

/// No two elements of `s` share a key.
pub open spec fn unique_keys<V: Keyed>(s: Seq<V>) -> bool {
    forall|i: int, j: int|
        #![trigger s[i].key(), s[j].key()]
        0 <= i < s.len() && 0 <= j < s.len() && i != j ==> s[i].key() != s[j].key()
}

/// Some element of `s` has key `k`.
pub open spec fn has_key<V: Keyed>(s: Seq<V>, k: Seq<char>) -> bool {
    exists|i: int| 0 <= i < s.len() && #[trigger] s[i].key() == k
}

/// The elements of `s` by their keys.
pub open spec fn keyed_map<V: Keyed>(s: Seq<V>) -> Map<Seq<char>, V> {
    Map::new(
        |k: Seq<char>| has_key(s, k),
        |k: Seq<char>| s[choose|i: int| 0 <= i < s.len() && #[trigger] s[i].key() == k],
    )
}

/// The entries of `m` whose value satisfies `p`.
pub open spec fn filter_values<V>(m: Map<Seq<char>, V>, p: spec_fn(V) -> bool) -> Map<Seq<char>, V> {
    Map::new(|k: Seq<char>| m.contains_key(k) && p(m[k]), |k: Seq<char>| m[k])
}

/// An element of a sequence with distinct keys is the map's value at its key.
pub proof fn lemma_keyed_index<V: Keyed>(s: Seq<V>, i: int)
    requires
        unique_keys(s),
        0 <= i < s.len(),
    ensures
        keyed_map(s).contains_key(s[i].key()),
        keyed_map(s)[s[i].key()] == s[i],
{
    let k = s[i].key();
    assert(has_key(s, k));
    let c = choose|c: int| 0 <= c < s.len() && #[trigger] s[c].key() == k;
    assert(s[c].key() == k);
    assert(c == i);
}

/// A key in the map belongs to some element.
pub proof fn lemma_keyed_contains<V: Keyed>(s: Seq<V>, k: Seq<char>)
    ensures
        keyed_map(s).contains_key(k) <==> has_key(s, k),
{
}

/// The map of no elements is empty.
pub proof fn lemma_keyed_empty<V: Keyed>(s: Seq<V>)
    requires
        s.len() == 0,
    ensures
        keyed_map(s) == Map::<Seq<char>, V>::empty(),
        unique_keys(s),
{
    assert(keyed_map(s) =~= Map::<Seq<char>, V>::empty());
}

/// Appending an element with a new key inserts it.
pub proof fn lemma_keyed_push<V: Keyed>(s: Seq<V>, v: V)
    requires
        unique_keys(s),
        !has_key(s, v.key()),
    ensures
        unique_keys(s.push(v)),
        keyed_map(s.push(v)) == keyed_map(s).insert(v.key(), v),
{
    let t = s.push(v);
    assert forall|i: int, j: int|
        #![trigger t[i].key(), t[j].key()]
        0 <= i < t.len() && 0 <= j < t.len() && i != j implies t[i].key() != t[j].key() by {
        if i < s.len() && j < s.len() {
            assert(s[i] == t[i] && s[j] == t[j]);
        } else if i < s.len() {
            assert(s[i] == t[i]);
        } else {
            assert(s[j] == t[j]);
        }
    }
    assert forall|k: Seq<char>| #[trigger] keyed_map(t).contains_key(k) <==> keyed_map(s).insert(v.key(), v).contains_key(k) by {
        if has_key(s, k) {
            let i = choose|i: int| 0 <= i < s.len() && #[trigger] s[i].key() == k;
            assert(t[i] == s[i]);
        }
        if k == v.key() {
            assert(t[s.len() as int] == v);
        }
    }
    assert forall|k: Seq<char>| #[trigger] keyed_map(t).contains_key(k) implies keyed_map(t)[k] == keyed_map(s).insert(v.key(), v)[k] by {
        if k == v.key() {
            lemma_keyed_index(t, s.len() as int);
        } else {
            let i = choose|i: int| 0 <= i < t.len() && #[trigger] t[i].key() == k;
            assert(i < s.len());
            assert(t[i] == s[i]);
            lemma_keyed_index(t, i);
            lemma_keyed_index(s, i);
        }
    }
    assert(keyed_map(t) =~= keyed_map(s).insert(v.key(), v));
}

/// Replacing an element by one with the same key replaces the map's value.
pub proof fn lemma_keyed_update<V: Keyed>(s: Seq<V>, i: int, v: V)
    requires
        unique_keys(s),
        0 <= i < s.len(),
        v.key() == s[i].key(),
    ensures
        unique_keys(s.update(i, v)),
        keyed_map(s.update(i, v)) == keyed_map(s).insert(v.key(), v),
{
    let t = s.update(i, v);
    assert forall|a: int, b: int|
        #![trigger t[a].key(), t[b].key()]
        0 <= a < t.len() && 0 <= b < t.len() && a != b implies t[a].key() != t[b].key() by {
        assert(t[a].key() == s[a].key());
        assert(t[b].key() == s[b].key());
    }
    assert forall|k: Seq<char>| #[trigger] keyed_map(t).contains_key(k) <==> keyed_map(s).insert(v.key(), v).contains_key(k) by {
        if has_key(s, k) {
            let j = choose|j: int| 0 <= j < s.len() && #[trigger] s[j].key() == k;
            assert(t[j].key() == s[j].key());
        }
        if has_key(t, k) {
            let j = choose|j: int| 0 <= j < t.len() && #[trigger] t[j].key() == k;
            assert(t[j].key() == s[j].key());
        }
    }
    assert forall|k: Seq<char>| #[trigger] keyed_map(t).contains_key(k) implies keyed_map(t)[k] == keyed_map(s).insert(v.key(), v)[k] by {
        let j = choose|j: int| 0 <= j < t.len() && #[trigger] t[j].key() == k;
        lemma_keyed_index(t, j);
        if j != i {
            assert(t[j] == s[j]);
            lemma_keyed_index(s, j);
        }
    }
    assert(keyed_map(t) =~= keyed_map(s).insert(v.key(), v));
}

/// Removing an element removes its key.
pub proof fn lemma_keyed_remove<V: Keyed>(s: Seq<V>, i: int)
    requires
        unique_keys(s),
        0 <= i < s.len(),
    ensures
        unique_keys(s.remove(i)),
        keyed_map(s.remove(i)) == keyed_map(s).remove(s[i].key()),
{
    let t = s.remove(i);
    assert forall|a: int| 0 <= a < t.len() implies #[trigger] t[a] == (if a < i { s[a] } else { s[a + 1] }) by {
    }
    assert forall|a: int, b: int|
        #![trigger t[a].key(), t[b].key()]
        0 <= a < t.len() && 0 <= b < t.len() && a != b implies t[a].key() != t[b].key() by {
        let sa = if a < i { a } else { a + 1 };
        let sb = if b < i { b } else { b + 1 };
        assert(t[a] == s[sa]);
        assert(t[b] == s[sb]);
    }
    let m = keyed_map(s).remove(s[i].key());
    assert forall|k: Seq<char>| #[trigger] keyed_map(t).contains_key(k) <==> m.contains_key(k) by {
        if has_key(t, k) {
            let a = choose|a: int| 0 <= a < t.len() && #[trigger] t[a].key() == k;
            let sa = if a < i { a } else { a + 1 };
            assert(t[a] == s[sa]);
            assert(s[sa].key() == k);
        }
        if has_key(s, k) && k != s[i].key() {
            let a = choose|a: int| 0 <= a < s.len() && #[trigger] s[a].key() == k;
            assert(a != i);
            let ta = if a < i { a } else { a - 1 };
            assert(t[ta] == s[a]);
        }
    }
    assert forall|k: Seq<char>| #[trigger] keyed_map(t).contains_key(k) implies keyed_map(t)[k] == m[k] by {
        let a = choose|a: int| 0 <= a < t.len() && #[trigger] t[a].key() == k;
        let sa = if a < i { a } else { a + 1 };
        assert(t[a] == s[sa]);
        lemma_keyed_index(t, a);
        lemma_keyed_index(s, sa);
    }
    assert(keyed_map(t) =~= m);
}

/// The map of a prefix one longer holds one more element.
pub proof fn lemma_keyed_take_step<V: Keyed>(s: Seq<V>, i: int)
    requires
        unique_keys(s),
        0 <= i < s.len(),
    ensures
        unique_keys(s.take(i)),
        !has_key(s.take(i), s[i].key()),
        s.take(i + 1) == s.take(i).push(s[i]),
        keyed_map(s.take(i + 1)) == keyed_map(s.take(i)).insert(s[i].key(), s[i]),
{
    let p = s.take(i);
    assert forall|a: int, b: int|
        #![trigger p[a].key(), p[b].key()]
        0 <= a < p.len() && 0 <= b < p.len() && a != b implies p[a].key() != p[b].key() by {
        assert(p[a] == s[a] && p[b] == s[b]);
    }
    if has_key(p, s[i].key()) {
        let a = choose|a: int| 0 <= a < p.len() && #[trigger] p[a].key() == s[i].key();
        assert(p[a] == s[a]);
    }
    assert(s.take(i + 1) =~= p.push(s[i]));
    lemma_keyed_push(p, s[i]);
}

/// Keeping the elements that satisfy `p` keeps the map's entries whose value satisfies `p`.
pub proof fn lemma_keyed_filter_step<V: Keyed>(s: Seq<V>, r: Seq<V>, i: int, p: spec_fn(V) -> bool)
    requires
        unique_keys(s),
        0 <= i < s.len(),
        unique_keys(r),
        keyed_map(r) == filter_values(keyed_map(s.take(i)), p),
    ensures
        p(s[i]) ==> unique_keys(r.push(s[i])) && keyed_map(r.push(s[i])) == filter_values(
            keyed_map(s.take(i + 1)),
            p,
        ),
        !p(s[i]) ==> keyed_map(r) == filter_values(keyed_map(s.take(i + 1)), p),
{
    lemma_keyed_take_step(s, i);
    let before = keyed_map(s.take(i));
    let after = keyed_map(s.take(i + 1));
    let k = s[i].key();
    assert(!before.contains_key(k));
    if p(s[i]) {
        assert(!keyed_map(r).contains_key(k));
        lemma_keyed_push(r, s[i]);
        assert(keyed_map(r.push(s[i])) =~= filter_values(after, p));
    } else {
        assert(keyed_map(r) =~= filter_values(after, p));
    }
}

/// The whole sequence is its longest prefix.
pub proof fn lemma_take_all<V>(s: Seq<V>)
    ensures
        s.take(s.len() as int) == s,
{
    assert(s.take(s.len() as int) =~= s);
}

} // verus!
