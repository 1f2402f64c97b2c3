//! A JSON value held as plain data, with its mathematical model.

use vstd::prelude::*;

use crate::keyed::{key_position, value_of, lemma_value_of_push, lemma_value_of_update, lemma_key_position, lemma_key_position_is, lemma_key_position_none};
use crate::text::opt_index;
use zed_extension_api::serde_json;

verus! {

/// `serde_json::Number`, a JSON number as `serde_json` holds it; opaque to the library,
/// which carries it through unchanged.
#[verifier::external_type_specification]
#[verifier::external_body]
pub struct ExSerdeJsonNumber(serde_json::Number);

/// The mathematical model of a JSON value.
pub enum Json {
    Null,
    Bool(bool),
    /// A number read from JSON text.
    Number(serde_json::Number),
    /// A non-negative whole number.
    Unsigned(u64),
    Str(Seq<char>),
    Array(Seq<Json>),
    /// The entries of an object, in order.
    Object(Seq<(Seq<char>, Json)>),
}

/// A JSON value.
#[derive(Debug, PartialEq, Eq)]
pub enum JsonValue {
    Null,
    Bool(bool),
    /// A number read from JSON text, as `serde_json` holds it.
    Number(serde_json::Number),
    /// A non-negative whole number (such as a default timeout or a process id).
    Unsigned(u64),
    Str(String),
    Array(Vec<JsonValue>),
    /// The entries of an object, in order.
    Object(Vec<(String, JsonValue)>),
}

/// The model of a JSON value.
pub open spec fn json_model(v: &JsonValue) -> Json
    decreases v,
{
    match v {
        JsonValue::Null => Json::Null,
        JsonValue::Bool(b) => Json::Bool(*b),
        JsonValue::Number(n) => Json::Number(*n),
        JsonValue::Unsigned(n) => Json::Unsigned(*n),
        JsonValue::Str(s) => Json::Str(s@),
        JsonValue::Array(items) => Json::Array(
            Seq::new(
                items@.len(),
                |i: int|
                    if 0 <= i < items@.len() {
                        json_model(&items@[i])
                    } else {
                        Json::Null
                    },
            ),
        ),
        JsonValue::Object(entries) => Json::Object(
            Seq::new(
                entries@.len(),
                |i: int|
                    if 0 <= i < entries@.len() {
                        (entries@[i].0@, json_model(&entries@[i].1))
                    } else {
                        (Seq::empty(), Json::Null)
                    },
            ),
        ),
    }
}

impl View for JsonValue {
    type V = Json;

    open spec fn view(&self) -> Json {
        json_model(self)
    }
}

/// The model of an object's entries.
pub open spec fn entries_model(e: Seq<(String, JsonValue)>) -> Seq<(Seq<char>, Json)> {
    Seq::new(e.len(), |i: int| (e[i].0@, e[i].1@))
}

/// An object has an entry for `key`.
pub open spec fn has_key(e: Seq<(Seq<char>, Json)>, key: Seq<char>) -> bool {
    key_position(e, key) is Some
}

/// The value that an object holds for `key` (that of its first entry for `key`).
pub open spec fn lookup(e: Seq<(Seq<char>, Json)>, key: Seq<char>) -> Option<Json> {
    value_of(e, key)
}

/// An object with `key` set to `v`: the first entry for `key` gets the value `v` in place,
/// or, where there is none, a new entry is added at the end.
pub open spec fn insert(e: Seq<(Seq<char>, Json)>, key: Seq<char>, v: Json) -> Seq<(Seq<char>, Json)> {
    match key_position(e, key) {
        Some(i) => e.update(i, (key, v)),
        None => e.push((key, v)),
    }
}

/// An object without any entry for `key`.
pub open spec fn remove(e: Seq<(Seq<char>, Json)>, key: Seq<char>) -> Seq<(Seq<char>, Json)>
    decreases e.len(),
{
    if e.len() == 0 {
        e
    } else if e.last().0 == key {
        remove(e.drop_last(), key)
    } else {
        remove(e.drop_last(), key).push(e.last())
    }
}

/// What `value.get(key)` gives for a JSON value: an object's value for `key`, nothing otherwise.
pub open spec fn get(v: Json, key: Seq<char>) -> Option<Json> {
    match v {
        Json::Object(e) => lookup(e, key),
        _ => None,
    }
}

/// The text of a value that is a string.
pub open spec fn as_str(v: Option<Json>) -> Option<Seq<char>> {
    match v {
        Some(Json::Str(s)) => Some(s),
        _ => None,
    }
}

/// After `key` is set to `v`, the object gives `v` for `key` and what it gave before for
/// every other key.
pub proof fn lemma_lookup_insert(e: Seq<(Seq<char>, Json)>, key: Seq<char>, v: Json, other: Seq<char>)
    ensures
        lookup(insert(e, key, v), key) == Some(v),
        other != key ==> lookup(insert(e, key, v), other) == lookup(e, other),
        has_key(insert(e, key, v), other) == (other == key || has_key(e, other)),
{
    lemma_key_position(e, key);
    match key_position(e, key) {
        Some(i) => {
            assert(e.update(i, (key, v)) == e.update(i, (e[i].0, v)));
            lemma_value_of_update(e, i, v, key);
            lemma_value_of_update(e, i, v, other);
            lemma_key_position(e, other);
        },
        None => {
            lemma_value_of_push(e, (key, v), key);
            lemma_value_of_push(e, (key, v), other);
            crate::keyed::lemma_key_position_push(e, (key, v), other);
        },
    }
}

/// After every entry for `key` is removed, the object has no `key` and gives what it gave
/// before for every other key.
pub proof fn lemma_lookup_remove(e: Seq<(Seq<char>, Json)>, key: Seq<char>, other: Seq<char>)
    ensures
        lookup(remove(e, key), key) is None,
        !has_key(remove(e, key), key),
        other != key ==> lookup(remove(e, key), other) == lookup(e, other),
        other != key ==> has_key(remove(e, key), other) == has_key(e, other),
    decreases e.len(),
{
    if e.len() == 0 {
    } else {
        let rest = e.drop_last();
        let x = e.last();
        assert(e == rest.push(x));
        lemma_lookup_remove(rest, key, other);
        crate::keyed::lemma_key_position_push(rest, x, other);
        crate::keyed::lemma_key_position_push(rest, x, key);
        lemma_value_of_push(rest, x, other);
        if x.0 == key {
        } else {
            let r = remove(rest, key);
            crate::keyed::lemma_key_position_push(r, x, other);
            crate::keyed::lemma_key_position_push(r, x, key);
            lemma_value_of_push(r, x, other);
            lemma_value_of_push(r, x, key);
        }
    }
}

/// The model of an object value is built from the models of its entries.
pub proof fn lemma_object_model(entries: Vec<(String, JsonValue)>)
    ensures
        JsonValue::Object(entries)@ == Json::Object(entries_model(entries@)),
{
    assert(JsonValue::Object(entries)@->Object_0 =~= entries_model(entries@));
}

/// The model of an array value is built from the models of its items.
pub proof fn lemma_array_model(items: Vec<JsonValue>)
    ensures
        JsonValue::Array(items)@ == Json::Array(items@.map_values(|x: JsonValue| x@)),
{
    assert(JsonValue::Array(items)@->Array_0 =~= items@.map_values(|x: JsonValue| x@));
}

/// The position of the first entry for `key`.
pub fn position_of(entries: &Vec<(String, JsonValue)>, key: &str) -> (r: Option<usize>)
    ensures
        opt_index(r) == key_position(entries_model(entries@), key@),
{
    let k = String::from_str(key);
    let ghost e = entries_model(entries@);
    let mut i: usize = 0;
    while i < entries.len()
        invariant
            e == entries_model(entries@),
            k@ == key@,
            i <= entries.len(),
            forall|j: int| 0 <= j < i ==> e[j].0 != key@,
        decreases entries.len() - i,
    {
        if entries[i].0 == k {
            proof {
                lemma_key_position_is(e, key@, i as int);
            }
            return Some(i);
        }
        i = i + 1;
    }
    proof {
        lemma_key_position_none(e, key@);
    }
    None
}

/// The value of the first entry for `key`.
pub fn get_entry<'a>(entries: &'a Vec<(String, JsonValue)>, key: &str) -> (r: Option<&'a JsonValue>)
    ensures
        match r {
            Some(v) => lookup(entries_model(entries@), key@) == Some(v@),
            None => lookup(entries_model(entries@), key@) is None,
        },
{
    proof {
        lemma_key_position(entries_model(entries@), key@);
    }
    match position_of(entries, key) {
        Some(i) => Some(&entries[i].1),
        None => None,
    }
}

/// Sets `key` to `v`: in place where an entry for `key` exists, else as a new last entry.
pub fn insert_entry(entries: &mut Vec<(String, JsonValue)>, key: &str, v: JsonValue)
    ensures
        entries_model(final(entries)@) == insert(entries_model(old(entries)@), key@, v@),
{
    let pos = position_of(entries, key);
    proof {
        lemma_key_position(entries_model(entries@), key@);
    }
    let k = String::from_str(key);
    let ghost e = entries_model(entries@);
    match pos {
        Some(i) => {
            entries.set(i, (k, v));
            assert(entries_model(entries@) =~= e.update(i as int, (key@, v@)));
        },
        None => {
            entries.push((k, v));
            assert(entries_model(entries@) =~= e.push((key@, v@)));
        },
    }
}

proof fn lemma_remove_step(e: Seq<(String, JsonValue)>, key: Seq<char>, i: int)
    requires
        0 <= i < e.len(),
    ensures
        remove(entries_model(e.take(i + 1)), key) == if e[i].0@ == key {
            remove(entries_model(e.take(i)), key)
        } else {
            remove(entries_model(e.take(i)), key).push((e[i].0@, e[i].1@))
        },
{
    assert(entries_model(e.take(i + 1)).drop_last() =~= entries_model(e.take(i)));
}

/// Removes every entry for `key`.
pub fn remove_entry(entries: &mut Vec<(String, JsonValue)>, key: &str)
    ensures
        entries_model(final(entries)@) == remove(entries_model(old(entries)@), key@),
{
    let k = String::from_str(key);
    let mut old_entries: Vec<(String, JsonValue)> = Vec::new();
    std::mem::swap(&mut old_entries, entries);
    let ghost orig = old_entries@;
    let n = old_entries.len();
    let mut i: usize = 0;
    assert(entries_model(orig.take(0)) =~= Seq::empty());
    while i < n
        invariant
            n == old_entries.len(),
            orig.len() == n,
            k@ == key@,
            i <= n,
            forall|j: int| i <= j < n ==> old_entries@[j] == orig[j],
            entries_model(entries@) == remove(entries_model(orig.take(i as int)), key@),
        decreases n - i,
    {
        let mut item: (String, JsonValue) = (String::new(), JsonValue::Null);
        old_entries.set_and_swap(i, &mut item);
        proof {
            lemma_remove_step(orig, key@, i as int);
        }
        let ghost before = entries_model(entries@);
        if !(item.0 == k) {
            entries.push(item);
            assert(entries_model(entries@) =~= before.push((orig[i as int].0@, orig[i as int].1@)));
        }
        i = i + 1;
    }
    assert(orig.take(n as int) =~= orig);
}

impl JsonValue {
    /// What `value.get(key)` gives: an object's value for `key`, and nothing for any other value.
    pub fn get(&self, key: &str) -> (r: Option<&JsonValue>)
        ensures
            match r {
                Some(v) => get(self@, key@) == Some(v@),
                None => get(self@, key@) is None,
            },
    {
        match self {
            JsonValue::Object(entries) => {
                proof {
                    lemma_object_model(*entries);
                }
                get_entry(entries, key)
            },
            _ => None,
        }
    }

    /// The text of a string value.
    pub fn as_str(&self) -> (r: Option<&String>)
        ensures
            match r {
                Some(s) => self@ == Json::Str(s@),
                None => !(self@ is Str),
            },
    {
        match self {
            JsonValue::Str(s) => Some(s),
            _ => None,
        }
    }

    /// A copy of this value.
    pub fn deep_clone(&self) -> (r: JsonValue)
        ensures
            r@ == self@,
        decreases self,
    {
        match self {
            JsonValue::Null => JsonValue::Null,
            JsonValue::Bool(b) => JsonValue::Bool(*b),
            JsonValue::Number(n) => JsonValue::Number(copy_number(n)),
            JsonValue::Unsigned(n) => JsonValue::Unsigned(*n),
            JsonValue::Str(s) => JsonValue::Str(s.clone()),
            JsonValue::Array(items) => {
                let mut out: Vec<JsonValue> = Vec::new();
                let mut i: usize = 0;
                while i < items.len()
                    invariant
                        *self == JsonValue::Array(*items),
                        i <= items.len(),
                        out.len() == i,
                        forall|j: int| 0 <= j < i ==> out@[j]@ == items@[j]@,
                    decreases items.len() - i,
                {
                    proof {
                        assert(decreases_to!(*self => self->Array_0));
                        assert(decreases_to!(*items => items@));
                        assert(decreases_to!(items@ => items@[i as int]));
                    }
                    let c = items[i].deep_clone();
                    out.push(c);
                    i = i + 1;
                }
                proof {
                    lemma_array_model(out);
                    lemma_array_model(*items);
                    assert(out@.map_values(|x: JsonValue| x@) =~= items@.map_values(
                        |x: JsonValue| x@,
                    ));
                }
                JsonValue::Array(out)
            },
            JsonValue::Object(entries) => {
                let mut out: Vec<(String, JsonValue)> = Vec::new();
                let mut i: usize = 0;
                while i < entries.len()
                    invariant
                        *self == JsonValue::Object(*entries),
                        i <= entries.len(),
                        out.len() == i,
                        forall|j: int|
                            0 <= j < i ==> out@[j].0@ == entries@[j].0@ && out@[j].1@
                                == entries@[j].1@,
                    decreases entries.len() - i,
                {
                    proof {
                        assert(decreases_to!(*self => self->Object_0));
                        assert(decreases_to!(*entries => entries@));
                        assert(decreases_to!(entries@ => entries@[i as int]));
                        assert(decreases_to!(entries@[i as int] => entries@[i as int].1));
                    }
                    let k = entries[i].0.clone();
                    let c = entries[i].1.deep_clone();
                    out.push((k, c));
                    i = i + 1;
                }
                proof {
                    lemma_object_model(out);
                    lemma_object_model(*entries);
                    assert(entries_model(out@) =~= entries_model(entries@));
                }
                JsonValue::Object(out)
            },
        }
    }
}

/// The model of the outcome of parsing JSON text.
pub open spec fn parse_outcome(r: Result<JsonValue, String>) -> Result<Json, Seq<char>> {
    match r {
        Ok(j) => Ok(j@),
        Err(e) => Err(e@),
    }
}

/// The model of an outcome that is text or an error message.
pub open spec fn text_outcome(r: Result<String, String>) -> Result<Seq<char>, Seq<char>> {
    match r {
        Ok(t) => Ok(t@),
        Err(e) => Err(e@),
    }
}

/// The entries of an object with only the first entry for each key kept, in their order.
pub open spec fn first_entries(e: Seq<(Seq<char>, Json)>) -> Seq<(Seq<char>, Json)>
    decreases e.len(),
{
    if e.len() == 0 {
        e
    } else if has_key(e.drop_last(), e.last().0) {
        first_entries(e.drop_last())
    } else {
        first_entries(e.drop_last()).push(e.last())
    }
}

/// No two entries of an object have the same key.
pub open spec fn distinct_keys(e: Seq<(Seq<char>, Json)>) -> bool {
    forall|i: int, j: int| 0 <= i < j < e.len() ==> e[i].0 != e[j].0
}

/// No object inside `v`, `v` itself included, has two entries with the same key.
pub open spec fn keys_unique(v: Json) -> bool
    decreases v,
{
    match v {
        Json::Array(items) => forall|i: int| 0 <= i < items.len() ==> keys_unique(#[trigger] items[i]),
        Json::Object(e) => distinct_keys(e) && forall|i: int|
            0 <= i < e.len() ==> keys_unique(#[trigger] e[i].1),
        _ => true,
    }
}

/// `v` with only the first entry for each key kept in every object inside it: the entries
/// that `lookup` reads.
pub open spec fn canonical(v: Json) -> Json
    decreases v,
{
    match v {
        Json::Array(items) => Json::Array(
            Seq::new(
                items.len(),
                |i: int|
                    if 0 <= i < items.len() {
                        canonical(items[i])
                    } else {
                        Json::Null
                    },
            ),
        ),
        Json::Object(e) => Json::Object(first_entries(canonical_entries(e))),
        _ => v,
    }
}

/// The entries of an object, each value taken through `canonical`.
pub open spec fn canonical_entries(e: Seq<(Seq<char>, Json)>) -> Seq<(Seq<char>, Json)>
    decreases e,
{
    Seq::new(
        e.len(),
        |i: int|
            if 0 <= i < e.len() {
                (e[i].0, canonical(e[i].1))
            } else {
                (Seq::empty(), Json::Null)
            },
    )
}

/// Keeping the first entry for each key keeps every key and the value that `lookup` gives for
/// it, leaves no key twice, and keeps only entries that were there.
pub proof fn lemma_first_entries(e: Seq<(Seq<char>, Json)>)
    ensures
        forall|k: Seq<char>|
            #![trigger has_key(first_entries(e), k)]
            has_key(first_entries(e), k) == has_key(e, k),
        forall|k: Seq<char>|
            #![trigger lookup(first_entries(e), k)]
            lookup(first_entries(e), k) == lookup(e, k),
        distinct_keys(first_entries(e)),
        forall|i: int| 0 <= i < first_entries(e).len() ==> e.contains(#[trigger] first_entries(e)[i]),
    decreases e.len(),
{
    if e.len() > 0 {
        let rest = e.drop_last();
        let x = e.last();
        assert(e == rest.push(x));
        lemma_first_entries(rest);
        let f = first_entries(rest);
        assert(e.drop_last() == rest);
        assert forall|k: Seq<char>| #![trigger has_key(first_entries(e), k)]
            has_key(first_entries(e), k) == has_key(e, k) by {
            crate::keyed::lemma_key_position_push(rest, x, k);
            crate::keyed::lemma_key_position_push(f, x, k);
            assert(has_key(f, k) == has_key(rest, k));
            assert(has_key(f, x.0) == has_key(rest, x.0));
        }
        assert forall|k: Seq<char>| #![trigger lookup(first_entries(e), k)]
            lookup(first_entries(e), k) == lookup(e, k) by {
            lemma_value_of_push(rest, x, k);
            lemma_value_of_push(f, x, k);
            assert(has_key(f, k) == has_key(rest, k));
            assert(has_key(f, x.0) == has_key(rest, x.0));
            assert(lookup(f, k) == lookup(rest, k));
        }
        assert forall|i: int| 0 <= i < first_entries(e).len() implies e.contains(
            #[trigger] first_entries(e)[i],
        ) by {
            if i < f.len() {
                let j = choose|j: int| 0 <= j < rest.len() && rest[j] == f[i];
                assert(e[j] == f[i]);
            } else {
                assert(e[e.len() - 1] == x);
            }
        }
        if !has_key(rest, x.0) {
            assert(!has_key(f, x.0));
            crate::keyed::lemma_key_position(f, x.0);
            assert forall|i: int, j: int| 0 <= i < j < f.push(x).len() implies f.push(x)[i].0
                != f.push(x)[j].0 by {
                assert(f.push(x)[i] == f[i]);
                if j == f.len() {
                    assert(f[i].0 != x.0);
                } else {
                    assert(f.push(x)[j] == f[j]);
                }
            }
        }
    }
}

/// The value that `canonical` gives has no key twice in any object.
pub proof fn lemma_canonical_keys_unique(v: Json)
    ensures
        keys_unique(canonical(v)),
    decreases v,
{
    match v {
        Json::Array(items) => {
            let c = canonical(v)->Array_0;
            assert forall|i: int| 0 <= i < c.len() implies keys_unique(#[trigger] c[i]) by {
                lemma_canonical_keys_unique(items[i]);
            }
        },
        Json::Object(e) => {
            let m = canonical_entries(e);
            assert forall|i: int| 0 <= i < m.len() implies keys_unique(#[trigger] m[i].1) by {
                lemma_canonical_keys_unique(e[i].1);
            }
            lemma_first_entries(m);
            let f = first_entries(m);
            assert forall|i: int| 0 <= i < f.len() implies keys_unique(#[trigger] f[i].1) by {
                assert(m.contains(f[i]));
                let j = choose|j: int| 0 <= j < m.len() && m[j] == f[i];
                assert(keys_unique(m[j].1));
            }
        },
        _ => {},
    }
}

/// A copy of a `serde_json::Number` by its derived `Clone`, which copies its fields.
#[verifier::external_body]
fn copy_number(n: &serde_json::Number) -> (r: serde_json::Number)
    ensures
        r == *n,
{
    n.clone()
}

impl JsonValue {
    /// A copy of this value in which every object keeps only its first entry for each key.
    pub fn first_keys_only(&self) -> (r: JsonValue)
        ensures
            r@ == canonical(self@),
        decreases self,
    {
        match self {
            JsonValue::Null => JsonValue::Null,
            JsonValue::Bool(b) => JsonValue::Bool(*b),
            JsonValue::Number(n) => JsonValue::Number(copy_number(n)),
            JsonValue::Unsigned(n) => JsonValue::Unsigned(*n),
            JsonValue::Str(s) => JsonValue::Str(s.clone()),
            JsonValue::Array(items) => {
                let mut out: Vec<JsonValue> = Vec::new();
                let mut i: usize = 0;
                while i < items.len()
                    invariant
                        *self == JsonValue::Array(*items),
                        i <= items.len(),
                        out.len() == i,
                        forall|j: int| 0 <= j < i ==> out@[j]@ == canonical(items@[j]@),
                    decreases items.len() - i,
                {
                    proof {
                        assert(decreases_to!(*self => self->Array_0));
                        assert(decreases_to!(*items => items@));
                        assert(decreases_to!(items@ => items@[i as int]));
                    }
                    let c = items[i].first_keys_only();
                    out.push(c);
                    i = i + 1;
                }
                proof {
                    lemma_array_model(out);
                    lemma_array_model(*items);
                    let m = items@.map_values(|x: JsonValue| x@);
                    assert(out@.map_values(|x: JsonValue| x@) =~= canonical(Json::Array(m))->Array_0);
                }
                JsonValue::Array(out)
            },
            JsonValue::Object(entries) => {
                let ghost m = Seq::new(
                    entries@.len(),
                    |j: int| (entries@[j].0@, canonical(entries@[j].1@)),
                );
                let mut out: Vec<(String, JsonValue)> = Vec::new();
                let mut i: usize = 0;
                assert(m.take(0) =~= Seq::empty());
                while i < entries.len()
                    invariant
                        *self == JsonValue::Object(*entries),
                        m.len() == entries@.len(),
                        forall|j: int|
                            0 <= j < m.len() ==> #[trigger] m[j] == (
                                entries@[j].0@,
                                canonical(entries@[j].1@),
                            ),
                        i <= entries.len(),
                        entries_model(out@) == first_entries(m.take(i as int)),
                    decreases entries.len() - i,
                {
                    proof {
                        assert(decreases_to!(*self => self->Object_0));
                        assert(decreases_to!(*entries => entries@));
                        assert(decreases_to!(entries@ => entries@[i as int]));
                        assert(decreases_to!(entries@[i as int] => entries@[i as int].1));
                    }
                    let c = entries[i].1.first_keys_only();
                    let ghost before = entries_model(out@);
                    let seen = position_of(&out, entries[i].0.as_str());
                    proof {
                        let p = m.take(i as int);
                        assert(m.take(i + 1).drop_last() =~= p);
                        assert(m.take(i + 1).last() == m[i as int]);
                        lemma_first_entries(p);
                        assert(has_key(first_entries(p), m[i as int].0) == has_key(p, m[i as int].0));
                    }
                    if seen.is_none() {
                        out.push((entries[i].0.clone(), c));
                        assert(entries_model(out@) =~= before.push(m[i as int]));
                    }
                    i = i + 1;
                }
                proof {
                    assert(m.take(entries@.len() as int) =~= m);
                    lemma_object_model(out);
                    lemma_object_model(*entries);
                    assert(canonical_entries(entries_model(entries@)) =~= m);
                }
                JsonValue::Object(out)
            },
        }
    }
}

/// `serde_json::Value`, the JSON value of `serde_json`; opaque to the library, which holds
/// JSON as `JsonValue`.
#[verifier::external_type_specification]
#[verifier::external_body]
pub struct ExSerdeJsonValue(serde_json::Value);

/// What parsing `text` with `serde_json::from_str` into a `serde_json::Value` gives, taken
/// over to the library's model: the value, or the text of the parse error.
pub uninterp spec fn json_parse(text: Seq<char>) -> Result<Json, Seq<char>>;

/// The text that `serde_json::to_string` writes for the `serde_json::Value` that holds `v`,
/// an object's entries held in a `serde_json::Map` (which orders them by key).
pub uninterp spec fn json_print(v: Json) -> Seq<char>;

/// Takes a `serde_json::Value` over to a `JsonValue`, variant by variant, an object's entries
/// in the order in which its map holds them. No contract: the wrapper that uses it has one.
#[verifier::external_body]
fn from_serde(value: &serde_json::Value) -> JsonValue {
    match value {
        serde_json::Value::Null => JsonValue::Null,
        serde_json::Value::Bool(b) => JsonValue::Bool(*b),
        serde_json::Value::Number(n) => JsonValue::Number(n.clone()),
        serde_json::Value::String(s) => JsonValue::Str(s.clone()),
        serde_json::Value::Array(items) => JsonValue::Array(items.iter().map(from_serde).collect()),
        serde_json::Value::Object(map) => JsonValue::Object(
            map.iter().map(|(k, v)| (k.clone(), from_serde(v))).collect(),
        ),
    }
}

/// Takes a `JsonValue` over to a `serde_json::Value`, variant by variant: a whole number
/// through `serde_json::Number::from`, an object's entries into a `serde_json::Map`. It is
/// called only on values whose objects have no key twice, so that every entry is kept. No
/// contract: the wrapper that uses it has one.
#[verifier::external_body]
fn to_serde(value: &JsonValue) -> serde_json::Value {
    match value {
        JsonValue::Null => serde_json::Value::Null,
        JsonValue::Bool(b) => serde_json::Value::Bool(*b),
        JsonValue::Number(n) => serde_json::Value::Number(n.clone()),
        JsonValue::Unsigned(n) => serde_json::Value::Number(serde_json::Number::from(*n)),
        JsonValue::Str(s) => serde_json::Value::String(s.clone()),
        JsonValue::Array(items) => serde_json::Value::Array(items.iter().map(to_serde).collect()),
        JsonValue::Object(entries) => serde_json::Value::Object(
            entries.iter().map(|(k, v)| (k.clone(), to_serde(v))).collect(),
        ),
    }
}

/// Parses `text` with `serde_json::from_str` into a `serde_json::Value` and takes it over to
/// a `JsonValue`; the parse error as its text. The contract names the outcome `json_parse`;
/// what it is for a given text is left to `serde_json`.
#[verifier::external_body]
fn parse_json(text: &str) -> (r: Result<JsonValue, String>)
    ensures
        parse_outcome(r) == json_parse(text@),
{
    match serde_json::from_str::<serde_json::Value>(text) {
        Ok(v) => Ok(from_serde(&v)),
        Err(e) => Err(e.to_string()),
    }
}

/// Writes `value`, whose objects have no key twice, as JSON text with `serde_json::to_string`
/// on the `serde_json::Value` that holds it. `to_string` fails only where a `Serialize` impl
/// fails or a map has a key that is no string, neither of which a `serde_json::Value` has, so
/// the contract promises text, and names it `json_print`; what it is for a given value is left
/// to `serde_json`.
#[verifier::external_body]
fn print_json(value: &JsonValue) -> (r: Result<String, String>)
    requires
        keys_unique(value@),
    ensures
        r is Ok,
        r->Ok_0@ == json_print(value@),
{
    match serde_json::to_string(&to_serde(value)) {
        Ok(s) => Ok(s),
        Err(e) => Err(e.to_string()),
    }
}

impl JsonValue {
    /// Parses JSON text.
    pub fn from_text(text: &str) -> (r: Result<JsonValue, String>)
        ensures
            parse_outcome(r) == json_parse(text@),
    {
        parse_json(text)
    }

    /// Writes this value as JSON text; where an object has a key twice, its first entry for
    /// that key is the one written.
    pub fn to_text(&self) -> (r: String)
        ensures
            r@ == json_print(canonical(self@)),
    {
        let v = self.first_keys_only();
        proof {
            lemma_canonical_keys_unique(self@);
        }
        match print_json(&v) {
            Ok(s) => s,
            // print_json promises text, so this arm is never taken
            Err(_) => String::new(),
        }
    }
}

} // verus!
