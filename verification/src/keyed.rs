//! Small maps kept as vectors of `(key, value)` pairs whose keys are
//! distinct, and what reading and writing them does.

use vstd::prelude::*;

verus! {

/// The value stored under `key`, if the key is present.
pub open spec fn lookup<V>(entries: Seq<(Seq<char>, V)>, key: Seq<char>) -> Option<V>
    decreases entries.len(),
{
    if entries.len() == 0 {
        None
    } else if entries.last().0 == key {
        Some(entries.last().1)
    } else {
        lookup(entries.drop_last(), key)
    }
}

/// No key occurs twice.
pub open spec fn distinct_keys<V>(entries: Seq<(Seq<char>, V)>) -> bool {
    forall|i: int, j: int| 0 <= i < j < entries.len() ==> entries[i].0 != entries[j].0
}

pub proof fn lemma_lookup_index<V>(entries: Seq<(Seq<char>, V)>, key: Seq<char>)
    requires
        distinct_keys(entries),
    ensures
        match lookup(entries, key) {
            Some(s) => exists|i: int| 0 <= i < entries.len() && entries[i].0 == key && entries[i].1 == s,
            None => forall|i: int| 0 <= i < entries.len() ==> entries[i].0 != key,
        },
        forall|i: int| 0 <= i < entries.len() && entries[i].0 == key ==> lookup(entries, key) == Some(entries[i].1),
    decreases entries.len(),
{
    if entries.len() > 0 {
        let d = entries.drop_last();
        assert(distinct_keys(d));
        lemma_lookup_index(d, key);
        if entries.last().0 != key {
            assert forall|i: int| 0 <= i < entries.len() && entries[i].0 == key implies lookup(entries, key) == Some(entries[i].1) by {
                assert(i < entries.len() - 1);
                assert(d[i] == entries[i]);
            }
            match lookup(d, key) {
                Some(s) => {
                    let i = choose|i: int| 0 <= i < d.len() && d[i].0 == key && d[i].1 == s;
                    assert(entries[i] == d[i]);
                },
                None => {
                    assert forall|i: int| 0 <= i < entries.len() implies entries[i].0 != key by {
                        if i < entries.len() - 1 {
                            assert(entries[i] == d[i]);
                        }
                    }
                },
            }
        } else {
            assert forall|i: int| 0 <= i < entries.len() && entries[i].0 == key implies lookup(entries, key) == Some(entries[i].1) by {
                if i < entries.len() - 1 {
                    assert(entries[i].0 != entries[entries.len() - 1].0);
                }
            }
            assert(entries[entries.len() - 1].0 == key);
        }
    }
}

pub proof fn lemma_lookup_update<V>(entries: Seq<(Seq<char>, V)>, i: int, key: Seq<char>, v: V, other: Seq<char>)
    requires
        distinct_keys(entries),
        0 <= i < entries.len(),
        entries[i].0 == key,
    ensures
        distinct_keys(entries.update(i, (key, v))),
        lookup(entries.update(i, (key, v)), key) == Some(v),
        other != key ==> lookup(entries.update(i, (key, v)), other) == lookup(entries, other),
{
    let u = entries.update(i, (key, v));
    assert(distinct_keys(u)) by {
        assert forall|a: int, b: int| 0 <= a < b < u.len() implies u[a].0 != u[b].0 by {
            assert(u[a].0 == entries[a].0);
            assert(u[b].0 == entries[b].0);
        }
    }
    lemma_lookup_index(u, key);
    assert(u[i] == (key, v));
    lemma_lookup_index(u, other);
    lemma_lookup_index(entries, other);
    if other != key {
        match lookup(entries, other) {
            Some(s) => {
                let k = choose|k: int| 0 <= k < entries.len() && entries[k].0 == other && entries[k].1 == s;
                assert(u[k] == entries[k]);
            },
            None => {
                assert forall|k: int| 0 <= k < u.len() implies u[k].0 != other by {
                    assert(u[k].0 == entries[k].0);
                }
            },
        }
    }
}

pub proof fn lemma_lookup_push<V>(entries: Seq<(Seq<char>, V)>, key: Seq<char>, v: V, other: Seq<char>)
    requires
        distinct_keys(entries),
        lookup(entries, key) is None,
    ensures
        distinct_keys(entries.push((key, v))),
        lookup(entries.push((key, v)), key) == Some(v),
        other != key ==> lookup(entries.push((key, v)), other) == lookup(entries, other),
{
    lemma_lookup_index(entries, key);
    let p = entries.push((key, v));
    assert(p.drop_last() == entries);
    assert(distinct_keys(p)) by {
        assert forall|a: int, b: int| 0 <= a < b < p.len() implies p[a].0 != p[b].0 by {
            if b == p.len() - 1 {
                assert(p[a] == entries[a]);
            } else {
                assert(p[a] == entries[a]);
                assert(p[b] == entries[b]);
            }
        }
    }
}

} // verus!
