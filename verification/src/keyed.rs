//! Sequences of entries keyed by text, where the first entry for a key is the one that counts.

use vstd::prelude::*;

verus! {

/// The first position at or after `k` of an entry whose key is `key`.
pub open spec fn key_from<V>(e: Seq<(Seq<char>, V)>, key: Seq<char>, k: int) -> Option<int>
    decreases e.len() + 1 - k,
{
    if k < 0 || k >= e.len() {
        None
    } else if e[k].0 == key {
        Some(k)
    } else {
        key_from(e, key, k + 1)
    }
}

/// The position of the first entry whose key is `key`.
pub open spec fn key_position<V>(e: Seq<(Seq<char>, V)>, key: Seq<char>) -> Option<int> {
    key_from(e, key, 0)
}

/// The value of the first entry whose key is `key`.
pub open spec fn value_of<V>(e: Seq<(Seq<char>, V)>, key: Seq<char>) -> Option<V> {
    match key_position(e, key) {
        Some(i) => Some(e[i].1),
        None => None,
    }
}

proof fn lemma_key_from<V>(e: Seq<(Seq<char>, V)>, key: Seq<char>, k: int)
    requires
        0 <= k,
    ensures
        key_from(e, key, k) matches Some(i) ==> k <= i < e.len() && e[i].0 == key && forall|
            j: int,
        |
            k <= j < i ==> e[j].0 != key,
        key_from(e, key, k) is None ==> forall|j: int| k <= j < e.len() ==> e[j].0 != key,
    decreases e.len() + 1 - k,
{
    if k >= e.len() {
    } else if e[k].0 == key {
    } else {
        lemma_key_from(e, key, k + 1);
    }
}

/// What `key_position` gives: the first entry for `key`, or none where no entry has that key.
pub proof fn lemma_key_position<V>(e: Seq<(Seq<char>, V)>, key: Seq<char>)
    ensures
        key_position(e, key) matches Some(i) ==> 0 <= i < e.len() && e[i].0 == key && forall|
            j: int,
        |
            0 <= j < i ==> e[j].0 != key,
        key_position(e, key) is None ==> forall|j: int| 0 <= j < e.len() ==> e[j].0 != key,
{
    lemma_key_from(e, key, 0);
}

/// A position is the first one for `key` exactly when its key is `key` and no earlier key is.
pub proof fn lemma_key_position_is<V>(e: Seq<(Seq<char>, V)>, key: Seq<char>, i: int)
    requires
        0 <= i < e.len(),
        e[i].0 == key,
        forall|j: int| 0 <= j < i ==> e[j].0 != key,
    ensures
        key_position(e, key) == Some(i),
{
    lemma_key_position(e, key);
    if key_position(e, key) is Some {
        let k = key_position(e, key)->0;
        assert(!(k < i));
        assert(!(i < k));
    }
}

/// No entry has `key`, so `key_position` gives none.
pub proof fn lemma_key_position_none<V>(e: Seq<(Seq<char>, V)>, key: Seq<char>)
    requires
        forall|j: int| 0 <= j < e.len() ==> e[j].0 != key,
    ensures
        key_position(e, key) is None,
{
    lemma_key_position(e, key);
}

/// Entries with the same keys, position by position, give every key the same position.
pub proof fn lemma_same_keys<V>(e1: Seq<(Seq<char>, V)>, e2: Seq<(Seq<char>, V)>, key: Seq<char>)
    requires
        e1.len() == e2.len(),
        forall|j: int| 0 <= j < e1.len() ==> e1[j].0 == e2[j].0,
    ensures
        key_position(e1, key) == key_position(e2, key),
{
    lemma_key_position(e1, key);
    lemma_key_position(e2, key);
    if key_position(e1, key) is Some {
        lemma_key_position_is(e2, key, key_position(e1, key)->0);
    } else if key_position(e2, key) is Some {
        lemma_key_position_is(e1, key, key_position(e2, key)->0);
    }
}

/// Where an entry is added at the end, every key keeps its first entry, and the new key, where
/// it had none, gets the new one.
pub proof fn lemma_key_position_push<V>(e: Seq<(Seq<char>, V)>, x: (Seq<char>, V), key: Seq<char>)
    ensures
        key_position(e.push(x), key) == if key_position(e, key) is Some {
            key_position(e, key)
        } else if x.0 == key {
            Some(e.len() as int)
        } else {
            None::<int>
        },
{
    let e2 = e.push(x);
    lemma_key_position(e, key);
    if key_position(e, key) is Some {
        lemma_key_position_is(e2, key, key_position(e, key)->0);
    } else if x.0 == key {
        lemma_key_position_is(e2, key, e.len() as int);
    } else {
        lemma_key_position_none(e2, key);
    }
}

/// What the value of a key is after an entry is added at the end.
pub proof fn lemma_value_of_push<V>(e: Seq<(Seq<char>, V)>, x: (Seq<char>, V), key: Seq<char>)
    ensures
        value_of(e.push(x), key) == if key_position(e, key) is Some {
            value_of(e, key)
        } else if x.0 == key {
            Some(x.1)
        } else {
            None::<V>
        },
{
    lemma_key_position_push(e, x, key);
    lemma_key_position(e, key);
}

/// Where the value of an entry changes but not its key, the values of other keys stay.
pub proof fn lemma_value_of_update<V>(e: Seq<(Seq<char>, V)>, i: int, v: V, key: Seq<char>)
    requires
        0 <= i < e.len(),
    ensures
        key_position(e.update(i, (e[i].0, v)), key) == key_position(e, key),
        value_of(e.update(i, (e[i].0, v)), key) == if key_position(e, key) == Some(i) {
            Some(v)
        } else {
            value_of(e, key)
        },
{
    let e2 = e.update(i, (e[i].0, v));
    lemma_same_keys(e, e2, key);
    lemma_key_position(e, key);
}

/// The model of a list of text pairs.
pub open spec fn pairs_model(e: Seq<(String, String)>) -> Seq<(Seq<char>, Seq<char>)> {
    Seq::new(e.len(), |i: int| (e[i].0@, e[i].1@))
}

/// The position of the first pair whose key is `key`.
pub fn pair_position(pairs: &Vec<(String, String)>, key: &str) -> (r: Option<usize>)
    ensures
        crate::text::opt_index(r) == key_position(pairs_model(pairs@), key@),
{
    let k = String::from_str(key);
    let ghost e = pairs_model(pairs@);
    let mut i: usize = 0;
    while i < pairs.len()
        invariant
            e == pairs_model(pairs@),
            k@ == key@,
            i <= pairs.len(),
            forall|j: int| 0 <= j < i ==> e[j].0 != key@,
        decreases pairs.len() - i,
    {
        if pairs[i].0 == k {
            proof {
                lemma_key_position_is(e, key@, i as int);
            }
            return Some(i);
        }
        i = i + 1;
    }
    proof {
        lemma_key_position_none(e, key@);
    }
    None
}

/// The value of the first pair whose key is `key`.
pub fn pair_value(pairs: &Vec<(String, String)>, key: &str) -> (r: Option<String>)
    ensures
        match r {
            Some(v) => value_of(pairs_model(pairs@), key@) == Some(v@),
            None => value_of(pairs_model(pairs@), key@) is None,
        },
{
    proof {
        lemma_key_position(pairs_model(pairs@), key@);
    }
    match pair_position(pairs, key) {
        Some(i) => Some(pairs[i].1.clone()),
        None => None,
    }
}

/// A copy of a list of text pairs.
pub fn copy_pairs(pairs: &Vec<(String, String)>) -> (r: Vec<(String, String)>)
    ensures
        pairs_model(r@) == pairs_model(pairs@),
{
    let mut out: Vec<(String, String)> = Vec::new();
    let mut i: usize = 0;
    while i < pairs.len()
        invariant
            i <= pairs.len(),
            out.len() == i,
            forall|j: int| 0 <= j < i ==> out@[j].0@ == pairs@[j].0@ && out@[j].1@ == pairs@[j].1@,
        decreases pairs.len() - i,
    {
        out.push((pairs[i].0.clone(), pairs[i].1.clone()));
        i = i + 1;
    }
    assert(pairs_model(out@) =~= pairs_model(pairs@));
    out
}

} // verus!
