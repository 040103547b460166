//! JSON values as a model reply carries them, and the field lookups that the
//! reply readers make: a key of an object (the first of several spellings),
//! a string, an integer, a flag, a list of strings.
use vstd::prelude::*;
use crate::seqs::{first_index, lemma_first_index, lemma_first_index_is, lemma_first_index_none};
use crate::text::{is_ws, str_eq, trim, trim_str};

verus! {

/// A JSON number: its value where it is an integer that fits `u64` or
/// `i64`, and its text as written.
#[derive(Debug)]
pub struct JsonNumber {
    pub unsigned: Option<u64>,
    pub signed: Option<i64>,
    pub text: String,
}

/// A JSON value. An object keeps its entries in order; no key occurs twice.
#[derive(Debug)]
pub enum JsonValue {
    Null,
    Bool(bool),
    Num(JsonNumber),
    Str(String),
    Arr(Vec<JsonValue>),
    Obj(Vec<JsonEntry>),
}

/// One entry of a JSON object.
#[derive(Debug)]
pub struct JsonEntry {
    pub key: String,
    pub value: JsonValue,
}

/// The view of an optional string.
pub open spec fn opt_view(o: Option<String>) -> Option<Seq<char>> {
    match o {
        Some(s) => Some(s@),
        None => None,
    }
}

/// The views of a list of strings.
pub open spec fn views(v: Seq<String>) -> Seq<Seq<char>> {
    v.map_values(|s: String| s@)
}

/// The views of a list of string literals.
pub open spec fn keys_view(keys: Seq<&str>) -> Seq<Seq<char>> {
    keys.map_values(|k: &str| k@)
}

pub open spec fn key_is(key: Seq<char>) -> spec_fn(JsonEntry) -> bool {
    |e: JsonEntry| e.key@ == key
}

/// The value under `key` in the entries.
pub open spec fn lookup(entries: Seq<JsonEntry>, key: Seq<char>) -> Option<JsonValue> {
    let i = first_index(entries, key_is(key));
    if i >= 0 {
        Some(entries[i].value)
    } else {
        None
    }
}

/// The value under `key` when `v` is an object.
pub open spec fn get(v: JsonValue, key: Seq<char>) -> Option<JsonValue> {
    match v {
        JsonValue::Obj(entries) => lookup(entries@, key),
        _ => None,
    }
}

/// The value under the first of `keys` that `v` has.
pub open spec fn get_any(v: JsonValue, keys: Seq<Seq<char>>) -> Option<JsonValue>
    decreases keys.len(),
{
    if keys.len() == 0 {
        None
    } else {
        match get(v, keys[0]) {
            Some(x) => Some(x),
            None => get_any(v, keys.drop_first()),
        }
    }
}

pub open spec fn deref_opt(r: Option<&JsonValue>) -> Option<JsonValue> {
    match r {
        Some(x) => Some(*x),
        None => None,
    }
}

pub open spec fn str_of(o: Option<JsonValue>) -> Option<Seq<char>> {
    match o {
        Some(JsonValue::Str(s)) => Some(s@),
        _ => None,
    }
}

pub open spec fn u64_of(o: Option<JsonValue>) -> Option<u64> {
    match o {
        Some(JsonValue::Num(n)) => n.unsigned,
        _ => None,
    }
}

pub open spec fn i64_of(o: Option<JsonValue>) -> Option<i64> {
    match o {
        Some(JsonValue::Num(n)) => n.signed,
        _ => None,
    }
}

pub open spec fn bool_of(o: Option<JsonValue>) -> Option<bool> {
    match o {
        Some(JsonValue::Bool(b)) => Some(b),
        _ => None,
    }
}

pub open spec fn arr_of(o: Option<JsonValue>) -> Option<Seq<JsonValue>> {
    match o {
        Some(JsonValue::Arr(items)) => Some(items@),
        _ => None,
    }
}

/// A string, trimmed, unless nothing is left of it.
pub open spec fn nonempty_trimmed(s: Option<Seq<char>>) -> Option<Seq<char>> {
    match s {
        Some(t) => if trim(t).len() > 0 {
            Some(trim(t))
        } else {
            None
        },
        None => None,
    }
}

/// The trimmed, non-empty string under `field`.
pub open spec fn optional_string_field(v: JsonValue, field: Seq<char>) -> Option<Seq<char>> {
    nonempty_trimmed(str_of(get(v, field)))
}

/// The strings among the items, trimmed, without the empty ones.
pub open spec fn trimmed_strings(items: Seq<JsonValue>) -> Seq<Seq<char>>
    decreases items.len(),
{
    if items.len() == 0 {
        Seq::empty()
    } else {
        let r = trimmed_strings(items.drop_last());
        match items.last() {
            JsonValue::Str(s) => if trim(s@).len() > 0 {
                r.push(trim(s@))
            } else {
                r
            },
            _ => r,
        }
    }
}

/// The strings among the items, as they are.
pub open spec fn raw_strings(items: Seq<JsonValue>) -> Seq<Seq<char>>
    decreases items.len(),
{
    if items.len() == 0 {
        Seq::empty()
    } else {
        let r = raw_strings(items.drop_last());
        match items.last() {
            JsonValue::Str(s) => r.push(s@),
            _ => r,
        }
    }
}

/// The trimmed, non-empty strings of the list under `field`; none where
/// there is no list.
pub open spec fn string_array_field(v: JsonValue, field: Seq<char>) -> Seq<Seq<char>> {
    match arr_of(get(v, field)) {
        Some(items) => trimmed_strings(items),
        None => Seq::empty(),
    }
}

/// The value under `key`, where `v` is an object that has it.
pub fn json_get<'a>(v: &'a JsonValue, key: &str) -> (r: Option<&'a JsonValue>)
    ensures
        deref_opt(r) == get(*v, key@),
{
    match v {
        JsonValue::Obj(entries) => {
            let ghost p = key_is(key@);
            let mut i: usize = 0;
            while i < entries.len()
                invariant
                    i <= entries@.len(),
                    p == key_is(key@),
                    get(*v, key@) == lookup(entries@, key@),
                    forall|j: int| 0 <= j < i ==> !p(#[trigger] entries@[j]),
                decreases entries@.len() - i,
            {
                if str_eq(entries[i].key.as_str(), key) {
                    proof {
                        lemma_first_index_is(entries@, p, i as int);
                        assert(lookup(entries@, key@) == Some(entries@[i as int].value));
                    }
                    return Some(&entries[i].value);
                }
                i = i + 1;
            }
            proof {
                lemma_first_index_none(entries@, p);
            }
            None
        },
        _ => None,
    }
}

/// The value under the first of `keys` that `v` has.
pub fn json_get_any<'a>(v: &'a JsonValue, keys: &[&str]) -> (r: Option<&'a JsonValue>)
    ensures
        deref_opt(r) == get_any(*v, keys_view(keys@)),
{
    let mut i: usize = 0;
    assert(keys_view(keys@).skip(0) =~= keys_view(keys@));
    while i < keys.len()
        invariant
            i <= keys@.len(),
            get_any(*v, keys_view(keys@)) == get_any(*v, keys_view(keys@).skip(i as int)),
        decreases keys@.len() - i,
    {
        let ghost rest = keys_view(keys@).skip(i as int);
        assert(rest[0] == keys@[i as int]@);
        assert(rest.drop_first() =~= keys_view(keys@).skip(i + 1));
        match json_get(v, keys[i]) {
            Some(x) => {
                return Some(x);
            },
            None => {},
        }
        i = i + 1;
    }
    None
}

/// The string under `field`, as it is.
pub fn json_str<'a>(v: Option<&'a JsonValue>) -> (r: Option<&'a String>)
    ensures
        match r {
            Some(s) => str_of(deref_opt(v)) == Some(s@),
            None => str_of(deref_opt(v)) is None,
        },
{
    match v {
        Some(JsonValue::Str(s)) => Some(s),
        _ => None,
    }
}

pub fn json_u64(v: Option<&JsonValue>) -> (r: Option<u64>)
    ensures
        r == u64_of(deref_opt(v)),
{
    match v {
        Some(JsonValue::Num(n)) => n.unsigned,
        _ => None,
    }
}

pub fn json_i64(v: Option<&JsonValue>) -> (r: Option<i64>)
    ensures
        r == i64_of(deref_opt(v)),
{
    match v {
        Some(JsonValue::Num(n)) => n.signed,
        _ => None,
    }
}

pub fn json_bool(v: Option<&JsonValue>) -> (r: Option<bool>)
    ensures
        r == bool_of(deref_opt(v)),
{
    match v {
        Some(JsonValue::Bool(b)) => Some(*b),
        _ => None,
    }
}

pub fn json_arr<'a>(v: Option<&'a JsonValue>) -> (r: Option<&'a Vec<JsonValue>>)
    ensures
        match r {
            Some(items) => arr_of(deref_opt(v)) == Some(items@),
            None => arr_of(deref_opt(v)) is None,
        },
{
    match v {
        Some(JsonValue::Arr(items)) => Some(items),
        _ => None,
    }
}

/// A string, trimmed, unless nothing is left of it.
pub fn nonempty_trimmed_str(s: Option<&String>) -> (r: Option<String>)
    ensures
        opt_view(r) == nonempty_trimmed(match s {
            Some(t) => Some(t@),
            None => None,
        }),
{
    match s {
        Some(t) => {
            let u = trim_str(t.as_str());
            if !u.as_str().is_empty() {
                Some(u)
            } else {
                None
            }
        },
        None => None,
    }
}

/// The trimmed, non-empty string under `field`.
pub fn json_optional_string(v: &JsonValue, field: &str) -> (r: Option<String>)
    ensures
        opt_view(r) == optional_string_field(*v, field@),
{
    nonempty_trimmed_str(json_str(json_get(v, field)))
}

/// The strings among the items, trimmed, without the empty ones.
pub fn json_trimmed_strings(items: &Vec<JsonValue>) -> (r: Vec<String>)
    ensures
        views(r@) == trimmed_strings(items@),
{
    let mut r: Vec<String> = Vec::new();
    let mut i: usize = 0;
    while i < items.len()
        invariant
            i <= items@.len(),
            views(r@) == trimmed_strings(items@.take(i as int)),
        decreases items@.len() - i,
    {
        let ghost before = views(r@);
        assert(items@.take(i + 1).drop_last() =~= items@.take(i as int));
        assert(items@.take(i + 1).last() == items@[i as int]);
        match &items[i] {
            JsonValue::Str(s) => {
                let t = trim_str(s.as_str());
                if !t.as_str().is_empty() {
                    r.push(t);
                    assert(views(r@) =~= before.push(trim(s@)));
                }
            },
            _ => {},
        }
        i = i + 1;
    }
    assert(items@.take(items@.len() as int) =~= items@);
    r
}

/// The strings among the items, as they are.
pub fn json_raw_strings(items: &Vec<JsonValue>) -> (r: Vec<String>)
    ensures
        views(r@) == raw_strings(items@),
{
    let mut r: Vec<String> = Vec::new();
    let mut i: usize = 0;
    while i < items.len()
        invariant
            i <= items@.len(),
            views(r@) == raw_strings(items@.take(i as int)),
        decreases items@.len() - i,
    {
        let ghost before = views(r@);
        assert(items@.take(i + 1).drop_last() =~= items@.take(i as int));
        assert(items@.take(i + 1).last() == items@[i as int]);
        match &items[i] {
            JsonValue::Str(s) => {
                r.push(s.clone());
                assert(views(r@) =~= before.push(s@));
            },
            _ => {},
        }
        i = i + 1;
    }
    assert(items@.take(items@.len() as int) =~= items@);
    r
}

/// The trimmed, non-empty strings of the list under `field`.
pub fn json_string_array(v: &JsonValue, field: &str) -> (r: Vec<String>)
    ensures
        views(r@) == string_array_field(*v, field@),
{
    match json_arr(json_get(v, field)) {
        Some(items) => json_trimmed_strings(items),
        None => {
            let r: Vec<String> = Vec::new();
            assert(views(r@) =~= Seq::<Seq<char>>::empty());
            r
        },
    }
}

} // verus!
