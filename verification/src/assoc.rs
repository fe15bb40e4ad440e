//! Association lists keyed by strings: the keyed tables of the configuration and
//! of the action space, with the lookup and insertion behaviour of a hash map.

use vstd::prelude::*;
use crate::text::str_eq;

verus! {

/// Position of the first entry with the given key, or -1 when there is none.
pub open spec fn key_index<V>(s: Seq<(String, V)>, k: Seq<char>) -> int
    decreases s.len(),
{
    if s.len() == 0 {
        -1
    } else {
        let j = key_index(s.drop_last(), k);
        if j >= 0 {
            j
        } else if s.last().0@ == k {
            s.len() - 1
        } else {
            -1
        }
    }
}

/// The value of the first entry with the given key.
pub open spec fn assoc_lookup<V>(s: Seq<(String, V)>, k: Seq<char>) -> Option<V> {
    let j = key_index(s, k);
    if j >= 0 {
        Some(s[j].1)
    } else {
        None
    }
}

/// The list after a hash-map style insertion: the first entry with the key takes the
/// new value, or a new entry is appended when the key is absent.
pub open spec fn assoc_insert<V>(s: Seq<(String, V)>, k: String, v: V) -> Seq<(String, V)> {
    let j = key_index(s, k@);
    if j >= 0 {
        s.update(j, (k, v))
    } else {
        s.push((k, v))
    }
}

/// The keys of a list, as character sequences.
pub open spec fn assoc_keys<V>(s: Seq<(String, V)>) -> Seq<Seq<char>> {
    s.map_values(|e: (String, V)| e.0@)
}

/// No key occurs twice in the list.
pub open spec fn distinct_keys<V>(s: Seq<(String, V)>) -> bool {
    forall|i: int, j: int| 0 <= i < s.len() && 0 <= j < s.len() && (#[trigger] s[i]).0@ == (#[trigger] s[j]).0@ ==> i == j
}

/// Facts about `key_index`: it is -1 or a valid position holding the key, and no
/// earlier position holds it.
pub proof fn lemma_key_index<V>(s: Seq<(String, V)>, k: Seq<char>)
    ensures
        -1 <= key_index(s, k) < s.len(),
        key_index(s, k) >= 0 ==> s[key_index(s, k)].0@ == k,
        forall|i: int| 0 <= i < s.len() && (key_index(s, k) < 0 || i < key_index(s, k)) ==> (#[trigger] s[i]).0@ != k,
    decreases s.len(),
{
    if s.len() > 0 {
        lemma_key_index(s.drop_last(), k);
        assert forall|i: int| 0 <= i < s.len() && (key_index(s, k) < 0 || i < key_index(s, k)) implies (#[trigger] s[i]).0@ != k by {
            if i < s.len() - 1 {
                assert(s[i] == s.drop_last()[i]);
            }
        }
    }
}

/// A position holding the key, with no earlier position holding it, is the key's index.
pub proof fn lemma_key_index_at<V>(s: Seq<(String, V)>, k: Seq<char>, i: int)
    requires
        0 <= i < s.len(),
        s[i].0@ == k,
        forall|j: int| 0 <= j < i ==> (#[trigger] s[j]).0@ != k,
    ensures
        key_index(s, k) == i,
{
    lemma_key_index(s, k);
}

/// The value stored under a key, if any.
pub fn assoc_get<'a, V>(v: &'a Vec<(String, V)>, k: &str) -> (r: Option<&'a V>)
    ensures
        match r {
            Some(x) => assoc_lookup(v@, k@) == Some(*x),
            None => assoc_lookup(v@, k@) is None,
        },
{
    match assoc_position(v, k) {
        Some(i) => Some(&v[i].1),
        None => None,
    }
}

/// The position of the first entry with the key, if any.
pub fn assoc_position<V>(v: &Vec<(String, V)>, k: &str) -> (r: Option<usize>)
    ensures
        match r {
            Some(i) => key_index(v@, k@) == i as int && i < v@.len(),
            None => key_index(v@, k@) < 0,
        },
{
    let mut i: usize = 0;
    while i < v.len()
        invariant
            i <= v.len(),
            forall|j: int| 0 <= j < i ==> (#[trigger] v@[j]).0@ != k@,
        decreases v.len() - i,
    {
        if str_eq(v[i].0.as_str(), k) {
            proof { lemma_key_index_at(v@, k@, i as int); }
            return Some(i);
        }
        i += 1;
    }
    proof { lemma_key_index(v@, k@); }
    None
}

/// Stores a value under a key, as a hash map's `insert` does.
pub fn assoc_set<V>(v: &mut Vec<(String, V)>, k: String, x: V)
    ensures
        final(v)@ == assoc_insert(old(v)@, k, x),
{
    match assoc_position(v, k.as_str()) {
        Some(i) => {
            v.set(i, (k, x));
        },
        None => {
            v.push((k, x));
        },
    }
}

/// Insertion keeps keys distinct.
pub proof fn lemma_insert_distinct<V>(s: Seq<(String, V)>, k: String, v: V)
    requires
        distinct_keys(s),
    ensures
        distinct_keys(assoc_insert(s, k, v)),
{
    lemma_key_index(s, k@);
    let t = assoc_insert(s, k, v);
    let j = key_index(s, k@);
    assert forall|a: int, b: int| 0 <= a < t.len() && 0 <= b < t.len() && (#[trigger] t[a]).0@ == (#[trigger] t[b]).0@ implies a == b by {
        if j >= 0 {
            if a != j && b != j {
                assert(s[a].0@ == s[b].0@);
            } else if a == j && b != j {
                assert(s[b].0@ == s[j].0@);
            } else if b == j && a != j {
                assert(s[a].0@ == s[j].0@);
            }
        } else {
            if a < s.len() && b < s.len() {
                assert(s[a].0@ == s[b].0@);
            } else if a < s.len() {
                assert(s[a].0@ == k@);
            } else if b < s.len() {
                assert(s[b].0@ == k@);
            }
        }
    }
}

/// After an insertion, the key reads back the value just stored, and every other
/// key reads back what it read before.
pub proof fn lemma_insert_lookup<V>(s: Seq<(String, V)>, k: String, v: V, q: Seq<char>)
    ensures
        assoc_lookup(assoc_insert(s, k, v), q) == (if q == k@ { Some(v) } else { assoc_lookup(s, q) }),
{
    lemma_key_index(s, k@);
    lemma_key_index(s, q);
    let t = assoc_insert(s, k, v);
    lemma_key_index(t, q);
    let j = key_index(s, k@);
    if q == k@ {
        if j >= 0 {
            lemma_key_index_at(t, q, j);
        } else {
            assert forall|i: int| 0 <= i < s.len() implies (#[trigger] t[i]).0@ != q by {
                assert(t[i] == s[i]);
            }
            lemma_key_index_at(t, q, s.len() as int);
        }
    } else {
        let p = key_index(s, q);
        if p >= 0 {
            assert forall|i: int| 0 <= i < p implies (#[trigger] t[i]).0@ != q by {
                assert(s[i].0@ != q);
            }
            lemma_key_index_at(t, q, p);
        } else {
            assert forall|i: int| 0 <= i < t.len() implies (#[trigger] t[i]).0@ != q by {
                if i < s.len() && i != j {
                    assert(t[i] == s[i]);
                }
            }
            lemma_key_index(t, q);
        }
    }
}

} // verus!
