//! Association lists keyed by strings: a `Vec` of pairs whose keys are
//! distinct, seen as a `Map` from the key's characters to the value.

use vstd::prelude::*;

verus! {

/// No two entries share a key.
pub open spec fn keys_unique<V>(s: Seq<(String, V)>) -> bool {
    forall|i: int, j: int|
        0 <= i < s.len() && 0 <= j < s.len() && i != j ==> #[trigger] s[i].0@ != #[trigger] s[j].0@
}

pub open spec fn has_key<V>(s: Seq<(String, V)>, k: Seq<char>) -> bool {
    exists|i: int| 0 <= i < s.len() && #[trigger] s[i].0@ == k
}

pub open spec fn key_index<V>(s: Seq<(String, V)>, k: Seq<char>) -> int {
    choose|i: int| 0 <= i < s.len() && #[trigger] s[i].0@ == k
}

/// The map that the list stands for.
pub open spec fn assoc_map<V>(s: Seq<(String, V)>) -> Map<Seq<char>, V> {
    Map::new(|k: Seq<char>| has_key(s, k), |k: Seq<char>| s[key_index(s, k)].1)
}

proof fn lemma_index_unique<V>(s: Seq<(String, V)>, i: int)
    requires
        keys_unique(s),
        0 <= i < s.len(),
    ensures
        has_key(s, s[i].0@),
        key_index(s, s[i].0@) == i,
{
    assert(has_key(s, s[i].0@));
}

/// Position of the entry with key `k`, if any.
pub fn find_key<V>(v: &Vec<(String, V)>, k: &str) -> (r: Option<usize>)
    ensures
        match r {
            Some(i) => i < v@.len() && v@[i as int].0@ == k@,
            None => !has_key(v@, k@),
        },
{
    let key = k.to_owned();
    let mut i: usize = 0;
    while i < v.len()
        invariant
            i <= v@.len(),
            key@ == k@,
            forall|j: int| 0 <= j < i ==> #[trigger] v@[j].0@ != k@,
        decreases v@.len() - i,
    {
        if v[i].0 == key {
            return Some(i);
        }
        i += 1;
    }
    None
}

/// Looks up `k`.
pub fn get_key<'a, V>(v: &'a Vec<(String, V)>, k: &str) -> (r: Option<&'a V>)
    requires
        keys_unique(v@),
    ensures
        match r {
            Some(x) => assoc_map(v@).contains_key(k@) && *x == assoc_map(v@)[k@],
            None => !assoc_map(v@).contains_key(k@),
        },
{
    match find_key(v, k) {
        Some(i) => {
            proof {
                lemma_index_unique(v@, i as int);
            }
            Some(&v[i].1)
        },
        None => None,
    }
}

/// Removes the entry of `k` and hands its value back.
pub fn take_key<V>(v: &mut Vec<(String, V)>, k: &str) -> (r: Option<V>)
    requires
        keys_unique(old(v)@),
    ensures
        keys_unique(final(v)@),
        assoc_map(final(v)@) == assoc_map(old(v)@).remove(k@),
        match r {
            Some(x) => assoc_map(old(v)@).contains_key(k@) && x == assoc_map(old(v)@)[k@],
            None => !assoc_map(old(v)@).contains_key(k@),
        },
{
    match find_key(v, k) {
        Some(i) => {
            let ghost s = v@;
            proof {
                lemma_index_unique(s, i as int);
            }
            let (_, x) = v.remove(i);
            let ghost t = v@;
            assert(t == s.remove(i as int));
            assert forall|a: int, b: int|
                0 <= a < t.len() && 0 <= b < t.len() && a != b implies #[trigger] t[a].0@
                != #[trigger] t[b].0@ by {
                let a2 = if a < i { a } else { a + 1 };
                let b2 = if b < i { b } else { b + 1 };
                assert(t[a] == s[a2]);
                assert(t[b] == s[b2]);
            }
            assert forall|key: Seq<char>| #[trigger] has_key(t, key) == (has_key(s, key) && key != k@) by {
                if has_key(t, key) {
                    let a = choose|a: int| 0 <= a < t.len() && #[trigger] t[a].0@ == key;
                    let a2 = if a < i { a } else { a + 1 };
                    assert(s[a2].0@ == key);
                    if key == k@ {
                        assert(s[a2].0@ == s[i as int].0@);
                    }
                }
                if has_key(s, key) && key != k@ {
                    let a = choose|a: int| 0 <= a < s.len() && #[trigger] s[a].0@ == key;
                    assert(a != i);
                    let a2 = if a < i { a } else { a - 1 };
                    assert(t[a2].0@ == key);
                }
            }
            assert forall|key: Seq<char>| #[trigger] has_key(t, key) implies t[key_index(t, key)].1
                == s[key_index(s, key)].1 by {
                let a = key_index(t, key);
                let a2 = if a < i { a } else { a + 1 };
                assert(t[a] == s[a2]);
                lemma_index_unique(t, a);
                lemma_index_unique(s, a2);
            }
            assert(assoc_map(t) =~= assoc_map(s).remove(k@));
            Some(x)
        },
        None => {
            assert(assoc_map(v@) =~= assoc_map(v@).remove(k@));
            None
        },
    }
}

/// Inserts `k` with `val`, replacing the value of an entry that has that key.
pub fn put_key<V>(v: &mut Vec<(String, V)>, k: String, val: V)
    requires
        keys_unique(old(v)@),
    ensures
        keys_unique(final(v)@),
        assoc_map(final(v)@) == assoc_map(old(v)@).insert(k@, val),
{
    let ghost s = v@;
    let ghost kv = k@;
    match find_key(v, k.as_str()) {
        Some(i) => {
            proof {
                lemma_index_unique(s, i as int);
            }
            v.set(i, (k, val));
            let ghost t = v@;
            assert forall|a: int, b: int|
                0 <= a < t.len() && 0 <= b < t.len() && a != b implies #[trigger] t[a].0@
                != #[trigger] t[b].0@ by {
                assert(t[a].0@ == s[a].0@);
                assert(t[b].0@ == s[b].0@);
            }
            assert forall|key: Seq<char>| #[trigger] has_key(t, key) == (has_key(s, key) || key == kv) by {
                if has_key(s, key) {
                    let a = choose|a: int| 0 <= a < s.len() && #[trigger] s[a].0@ == key;
                    assert(t[a].0@ == key);
                }
                if has_key(t, key) {
                    let a = choose|a: int| 0 <= a < t.len() && #[trigger] t[a].0@ == key;
                    assert(s[a].0@ == key);
                }
                if key == kv {
                    assert(t[i as int].0@ == key);
                }
            }
            assert forall|key: Seq<char>| #[trigger] has_key(t, key) implies t[key_index(t, key)].1
                == assoc_map(s).insert(kv, val)[key] by {
                let a = key_index(t, key);
                lemma_index_unique(t, a);
                if a != i {
                    lemma_index_unique(s, a);
                }
            }
            assert(assoc_map(t) =~= assoc_map(s).insert(kv, val));
        },
        None => {
            v.push((k, val));
            let ghost t = v@;
            assert forall|a: int, b: int|
                0 <= a < t.len() && 0 <= b < t.len() && a != b implies #[trigger] t[a].0@
                != #[trigger] t[b].0@ by {
                if a < s.len() && b < s.len() {
                    assert(t[a] == s[a]);
                    assert(t[b] == s[b]);
                } else if a < s.len() {
                    assert(t[a] == s[a]);
                } else if b < s.len() {
                    assert(t[b] == s[b]);
                }
            }
            assert forall|key: Seq<char>| #[trigger] has_key(t, key) == (has_key(s, key) || key == kv) by {
                if has_key(s, key) {
                    let a = choose|a: int| 0 <= a < s.len() && #[trigger] s[a].0@ == key;
                    assert(t[a] == s[a]);
                }
                if has_key(t, key) {
                    let a = choose|a: int| 0 <= a < t.len() && #[trigger] t[a].0@ == key;
                    if a < s.len() {
                        assert(t[a] == s[a]);
                    }
                }
                if key == kv {
                    assert(t[s.len() as int].0@ == key);
                }
            }
            assert forall|key: Seq<char>| #[trigger] has_key(t, key) implies t[key_index(t, key)].1
                == assoc_map(s).insert(kv, val)[key] by {
                let a = key_index(t, key);
                lemma_index_unique(t, a);
                if a < s.len() {
                    assert(t[a] == s[a]);
                    lemma_index_unique(s, a);
                }
            }
            assert(assoc_map(t) =~= assoc_map(s).insert(kv, val));
        },
    }
}

} // verus!
