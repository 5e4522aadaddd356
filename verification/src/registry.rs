//! Named entries with map semantics.
//!
//! A registry is kept as a sequence of `(name, value)` entries whose names
//! are pairwise distinct, so it denotes a mapping from names to values while
//! staying directly executable. Adding under a name already present replaces
//! the prior entry (last write wins); adding under a fresh name appends.

use vstd::prelude::*;

verus! {

/// Some entry of `s` carries the name `name`.
pub open spec fn has_key<T>(s: Seq<(String, T)>, name: Seq<char>) -> bool {
    exists|i: int| 0 <= i < s.len() && s[i].0@ == name
}

/// The index of the entry carrying `name`; meaningful when `has_key` holds
/// and the names are distinct.
pub open spec fn key_index<T>(s: Seq<(String, T)>, name: Seq<char>) -> int {
    choose|i: int| 0 <= i < s.len() && s[i].0@ == name
}

/// No two entries share a name: the sequence denotes a mapping.
pub open spec fn distinct_keys<T>(s: Seq<(String, T)>) -> bool {
    forall|i: int, j: int| 0 <= i < j < s.len() ==> s[i].0@ != s[j].0@
}

/// The names carried by the entries of `s`, in entry order.
pub open spec fn key_seq<T>(s: Seq<(String, T)>) -> Seq<Seq<char>> {
    s.map(|i: int, e: (String, T)| e.0@)
}

/// The set of names carried by the entries of `s`.
pub open spec fn key_set<T>(s: Seq<(String, T)>) -> Set<Seq<char>> {
    key_seq(s).to_set()
}

/// Map semantics of adding under a name: the entry holding `name` is
/// replaced, or a new entry is appended.
pub open spec fn upsert<T>(s: Seq<(String, T)>, name: String, val: T) -> Seq<(String, T)> {
    if has_key(s, name@) {
        s.update(key_index(s, name@), (name, val))
    } else {
        s.push((name, val))
    }
}

/// `key_set` holds exactly the names that some entry of `s` carries.
pub proof fn lemma_key_set_has_key<T>(s: Seq<(String, T)>, n: Seq<char>)
    ensures
        key_set(s).contains(n) <==> has_key(s, n),
{
    let keys = key_seq(s);
    if has_key(s, n) {
        let i = choose|i: int| 0 <= i < s.len() && s[i].0@ == n;
        assert(keys[i] == n);
        assert(keys.contains(n));
    }
    if keys.contains(n) {
        let i = choose|i: int| 0 <= i < keys.len() && keys[i] == n;
        assert(s[i].0@ == n);
        assert(has_key(s, n));
    }
}

/// Map semantics of `upsert`: the result is again a mapping; it holds
/// `(name, val)` under `name`; it holds every entry under another name
/// unchanged; and its names are those of `s` together with `name`.
pub proof fn lemma_upsert_facts<T>(s: Seq<(String, T)>, name: String, val: T)
    requires
        distinct_keys(s),
    ensures
        distinct_keys(upsert(s, name, val)),
        has_key(upsert(s, name, val), name@),
        upsert(s, name, val)[key_index(upsert(s, name, val), name@)] == (name, val),
        forall|n: Seq<char>| #[trigger] has_key(upsert(s, name, val), n)
            <==> (has_key(s, n) || n == name@),
        forall|n: Seq<char>| has_key(s, n) && n != name@
            ==> #[trigger] upsert(s, name, val)[key_index(upsert(s, name, val), n)]
                == s[key_index(s, n)],
{
    let u = upsert(s, name, val);
    let k: int = if has_key(s, name@) {
        key_index(s, name@)
    } else {
        s.len() as int
    };
    if has_key(s, name@) {
        assert(0 <= k < s.len() && s[k].0@ == name@);
        assert(u == s.update(k, (name, val)));
    } else {
        assert(u == s.push((name, val)));
    }
    assert(u.len() == if has_key(s, name@) { s.len() } else { s.len() + 1 });
    assert(u[k] == (name, val));
    assert forall|p: int| 0 <= p < u.len() && p != k implies u[p] == s[p] by {}
    assert forall|p: int, q: int| 0 <= p < q < u.len() implies u[p].0@ != u[q].0@ by {
        if p != k && q != k {
            assert(u[p] == s[p] && u[q] == s[q]);
            assert(s[p].0@ != s[q].0@);
        } else if p == k {
            assert(u[q] == s[q]);
            assert(u[p].0@ == name@);
            if has_key(s, name@) {
                assert(s[k].0@ == name@);
                assert(s[k].0@ != s[q].0@);
            } else {
                assert(q >= u.len());
            }
        } else {
            assert(u[p] == s[p]);
            assert(u[q].0@ == name@);
            if has_key(s, name@) {
                assert(s[p].0@ != s[k].0@);
            } else {
                assert(s[p].0@ != name@) by {
                    assert(!has_key(s, name@));
                }
            }
        }
    }
    assert(u[k].0@ == name@);
    assert(has_key(u, name@));
    assert forall|n: Seq<char>, j: int|
        0 <= j < u.len() && u[j].0@ == n implies j == key_index(u, n) by {
        assert(has_key(u, n));
        let j2 = key_index(u, n);
        assert(0 <= j2 < u.len() && u[j2].0@ == n);
        if j < j2 {
            assert(u[j].0@ != u[j2].0@);
        } else if j2 < j {
            assert(u[j2].0@ != u[j].0@);
        }
    }
    assert(key_index(u, name@) == k);
    assert forall|n: Seq<char>| #[trigger] has_key(u, n)
        <==> (has_key(s, n) || n == name@) by {
        if has_key(u, n) {
            let j = choose|j: int| 0 <= j < u.len() && u[j].0@ == n;
            if j == k {
                assert(n == name@);
            } else {
                assert(s[j].0@ == n);
                assert(has_key(s, n));
            }
        }
        if has_key(s, n) {
            let j = choose|j: int| 0 <= j < s.len() && s[j].0@ == n;
            if has_key(s, name@) && j == k {
                assert(n == name@);
                assert(has_key(u, n));
            } else {
                assert(u[j].0@ == n);
                assert(has_key(u, n));
            }
        }
        if n == name@ {
            assert(has_key(u, n));
        }
    }
    assert forall|n: Seq<char>| has_key(s, n) && n != name@
        implies #[trigger] u[key_index(u, n)] == s[key_index(s, n)] by {
        let j = key_index(s, n);
        assert(0 <= j < s.len() && s[j].0@ == n);
        assert(j != k) by {
            if has_key(s, name@) {
                assert(s[k].0@ == name@);
            }
        }
        assert(u[j] == s[j]);
        assert(u[j].0@ == n);
        assert(key_index(u, n) == j);
    }
}

/// A mapping with distinct names has exactly one entry per name: the number
/// of entries equals the number of distinct names it holds.
pub proof fn lemma_entry_count_is_name_count<T>(s: Seq<(String, T)>)
    requires
        distinct_keys(s),
    ensures
        key_set(s).finite(),
        key_set(s).len() == s.len(),
{
    broadcast use vstd::seq_lib::seq_to_set_is_finite;

    let keys = key_seq(s);
    assert(keys.no_duplicates()) by {
        assert forall|i: int, j: int|
            0 <= i < keys.len() && 0 <= j < keys.len() && i != j
            implies keys[i] != keys[j] by {
            if i < j {
                assert(s[i].0@ != s[j].0@);
            } else {
                assert(s[j].0@ != s[i].0@);
            }
        }
    }
    keys.unique_seq_to_set();
}

/// Add `val` under `name`: the entry already holding `name` is replaced,
/// else a new entry is appended (last write wins).
pub fn upsert_entry<T>(entries: &mut Vec<(String, T)>, name: String, val: T)
    requires
        distinct_keys(old(entries)@),
    ensures
        final(entries)@ == upsert(old(entries)@, name, val),
        distinct_keys(final(entries)@),
{
    let n = entries.len();
    let mut i: usize = 0;
    while i < n
        invariant
            distinct_keys(old(entries)@),
            entries@ == old(entries)@,
            n == entries@.len(),
            i <= n,
            forall|j: int| 0 <= j < i ==> entries@[j].0@ != name@,
        decreases n - i,
    {
        if entries[i].0 == name {
            proof {
                let s0 = old(entries)@;
                assert(s0[i as int].0@ == name@);
                assert(has_key(s0, name@));
                let k = key_index(s0, name@);
                assert(0 <= k < s0.len() && s0[k].0@ == name@);
                if k < i as int {
                    assert(s0[k].0@ != name@);
                } else if (i as int) < k {
                    assert(s0[i as int].0@ != s0[k].0@) by {
                        assert(distinct_keys(s0));
                    }
                }
                assert(k == i as int);
            }
            entries[i] = (name, val);
            proof {
                let s0 = old(entries)@;
                let s1 = entries@;
                assert(s1 == s0.update(i as int, (name, val)));
                assert(s1 =~= upsert(s0, name, val));
                assert forall|p: int, q: int|
                    0 <= p < q < s1.len() implies s1[p].0@ != s1[q].0@ by {
                    assert(s0[p].0@ != s0[q].0@) by {
                        assert(distinct_keys(s0));
                    }
                    if p == i as int {
                        assert(s1[p].0@ == name@ && s0[p].0@ == name@);
                    }
                    if q == i as int {
                        assert(s1[q].0@ == name@ && s0[q].0@ == name@);
                    }
                    assert(s1[p].0@ == s0[p].0@);
                    assert(s1[q].0@ == s0[q].0@);
                }
            }
            return;
        }
        i += 1;
    }
    proof {
        assert(!has_key(entries@, name@));
    }
    entries.push((name, val));
    proof {
        let s0 = old(entries)@;
        let s1 = entries@;
        assert(s1 == s0.push((name, val)));
        assert(s1 =~= upsert(s0, name, val));
        assert forall|p: int, q: int|
            0 <= p < q < s1.len() implies s1[p].0@ != s1[q].0@ by {
            if q < s0.len() {
                assert(s0[p].0@ != s0[q].0@) by {
                    assert(distinct_keys(s0));
                }
                assert(s1[p].0@ == s0[p].0@ && s1[q].0@ == s0[q].0@);
            } else {
                assert(s1[q] == (name, val));
                assert(s0[p].0@ != name@) by {
                    assert(!has_key(s0, name@));
                }
                assert(s1[p].0@ == s0[p].0@);
            }
        }
    }
}

} // verus!
