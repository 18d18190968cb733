//! Bridge to the JSON values that the remote service sends and receives.
//!
//! `serde_json::Value` is kept opaque; the few facts the library needs about
//! a value (whether it is null, the text of a string, the field stored under
//! a key, the entries of an object) are stated over named spec functions and
//! established only by the trusted items in this module.

use vstd::prelude::*;

verus! {

#[verifier::external_type_specification]
#[verifier::external_body]
pub struct ExValue(serde_json::Value);

/// What `serde_json::from_str::<Value>` yields on a text: the parsed JSON
/// document, or nothing when the text is not valid JSON.
pub uninterp spec fn parsed_json(s: Seq<char>) -> Option<serde_json::Value>;

/// What `serde_json::Value::get` yields on a value and a string key: the
/// field stored under the key when the value is an object that has it.
pub uninterp spec fn value_field(v: serde_json::Value, key: Seq<char>) -> Option<serde_json::Value>;

/// Whether a JSON value is the null value, as `serde_json::Value::is_null`
/// reports it.
pub uninterp spec fn value_is_null(v: serde_json::Value) -> bool;

/// What `serde_json::Value::as_str` yields: the text of a JSON string value,
/// or nothing for any other kind of value.
pub uninterp spec fn value_as_str(v: serde_json::Value) -> Option<Seq<char>>;

/// What the entries of a JSON object value are, in the order
/// `serde_json::Value::as_object` hands them out; nothing for a value that is
/// not an object.
pub uninterp spec fn object_entries(v: serde_json::Value) -> Option<Seq<(String, serde_json::Value)>>;

/// Relies on serde_json::Value::is_null: true exactly for the null value.
pub assume_specification[ serde_json::Value::is_null ](v: &serde_json::Value) -> (r: bool)
    ensures
        r == value_is_null(*v),
;

/// Relies on serde_json::Value::as_str: the borrowed text of a string value,
/// `None` for every other kind of value.
pub assume_specification[ serde_json::Value::as_str ](v: &serde_json::Value) -> (r: Option<&str>)
    ensures
        (match r {
            Some(s) => value_as_str(*v) == Some(s@),
            None => value_as_str(*v) is None,
        }),
;

/// Relies on serde_json::from_str::<Value>: parsing is a function of the
/// text alone, and fails exactly on text that is not valid JSON.
#[verifier::external_body]
pub(crate) fn parse_json(s: &str) -> (r: Option<serde_json::Value>)
    ensures
        r == parsed_json(s@),
{
    match serde_json::from_str(s) {
        Ok(v) => Some(v),
        Err(_) => None,
    }
}

/// Relies on serde_json::Value::get: looks a string key up in a JSON object,
/// `None` when the value is no object or lacks the key.
#[verifier::external_body]
pub(crate) fn json_get(v: &serde_json::Value, key: &str) -> (r: Option<serde_json::Value>)
    ensures
        r == value_field(*v, key@),
{
    match v.get(key) {
        Some(x) => Some(x.clone()),
        None => None,
    }
}

/// Relies on serde_json::Value::as_object: hands the entries of an object out
/// as owned key-value pairs, `None` for a value that is not an object.
#[verifier::external_body]
pub(crate) fn json_object_entries(v: &serde_json::Value) -> (r: Option<Vec<(String, serde_json::Value)>>)
    ensures
        (match r {
            Some(es) => object_entries(*v) == Some(es@),
            None => object_entries(*v) is None,
        }),
{
    match v.as_object() {
        Some(m) => {
            let mut out: Vec<(String, serde_json::Value)> = Vec::new();
            for (k, x) in m.iter() {
                out.push((k.clone(), x.clone()));
            }
            Some(out)
        }
        None => None,
    }
}

/// Relies on serde_json::Value::String: a JSON string value whose text is the
/// given one; such a value is not null.
#[verifier::external_body]
pub(crate) fn json_string_value(s: String) -> (r: serde_json::Value)
    ensures
        value_as_str(r) == Some(s@),
        !value_is_null(r),
{
    serde_json::Value::String(s)
}

/// Relies on serde_json::Value::Null: the JSON null value.
#[verifier::external_body]
pub(crate) fn json_null_value() -> (r: serde_json::Value)
    ensures
        value_is_null(r),
        value_as_str(r) is None,
{
    serde_json::Value::Null
}

/// Relies on serde_json::Value::Bool: a JSON boolean value.
#[verifier::external_body]
pub(crate) fn json_bool_value(b: bool) -> (r: serde_json::Value)
    ensures
        !value_is_null(r),
        value_as_str(r) is None,
{
    serde_json::Value::Bool(b)
}

/// Relies on serde_json::Value::Array over string items: a JSON array value.
#[verifier::external_body]
pub(crate) fn json_string_array(items: &Vec<String>) -> (r: serde_json::Value)
    ensures
        !value_is_null(r),
        value_as_str(r) is None,
{
    let mut out: Vec<serde_json::Value> = Vec::new();
    for s in items.iter() {
        out.push(serde_json::Value::String(s.clone()));
    }
    serde_json::Value::Array(out)
}

/// Relies on serde_json::Map collected from key-value pairs, wrapped in
/// serde_json::Value::Object: `get` then returns exactly the value stored
/// under each given key and nothing under any other key.
#[verifier::external_body]
pub(crate) fn json_object_from_pairs(pairs: Vec<(String, serde_json::Value)>) -> (r: serde_json::Value)
    requires
        forall|i: int, j: int| 0 <= i < j < pairs@.len() ==> pairs@[i].0@ != pairs@[j].0@,
    ensures
        !value_is_null(r),
        value_as_str(r) is None,
        forall|i: int| 0 <= i < pairs@.len() ==> value_field(r, pairs@[i].0@) == Some(pairs@[i].1),
        forall|k: Seq<char>|
            (forall|i: int| 0 <= i < pairs@.len() ==> pairs@[i].0@ != k) ==> value_field(r, k) is None,
{
    serde_json::Value::Object(pairs.into_iter().collect())
}

/// The per-field decoding rule every envelope shares: a transmitted null
/// stands for the empty object, an object stands for its entries, and any
/// other shape does not decode.
pub open spec fn field_entries(v: serde_json::Value) -> Option<Seq<(String, serde_json::Value)>> {
    if value_is_null(v) {
        Some(Seq::empty())
    } else {
        object_entries(v)
    }
}

/// The value stored under the first entry with the given key, if any.
pub open spec fn lookup_key(
    entries: Seq<(String, serde_json::Value)>,
    key: Seq<char>,
) -> Option<serde_json::Value>
    decreases entries.len(),
{
    if entries.len() == 0 {
        None
    } else if entries[0].0@ == key {
        Some(entries[0].1)
    } else {
        lookup_key(entries.drop_first(), key)
    }
}

/// Finds the index of the first entry whose key equals `key`.
pub(crate) fn find_key(entries: &Vec<(String, serde_json::Value)>, key: &String) -> (r: Option<usize>)
    ensures
        (match r {
            Some(i) => {
                &&& 0 <= i < entries@.len()
                &&& entries@[i as int].0@ == key@
                &&& lookup_key(entries@, key@) == Some(entries@[i as int].1)
                &&& forall|j: int| 0 <= j < i ==> entries@[j].0@ != key@
            },
            None => lookup_key(entries@, key@) is None,
        }),
{
    let mut i: usize = 0;
    proof {
        assert(entries@.skip(0) =~= entries@);
    }
    while i < entries.len()
        invariant
            0 <= i <= entries@.len(),
            forall|j: int| 0 <= j < i ==> entries@[j].0@ != key@,
            lookup_key(entries@, key@) == lookup_key(entries@.skip(i as int), key@),
        decreases entries@.len() - i,
    {
        if entries[i].0 == *key {
            proof {
                lemma_lookup_key_head(entries@.skip(i as int), key@);
                assert(entries@.skip(i as int)[0] == entries@[i as int]);
            }
            return Some(i);
        }
        proof {
            lemma_lookup_key_tail(entries@.skip(i as int), key@);
            assert(entries@.skip(i as int).drop_first() =~= entries@.skip(i as int + 1));
        }
        i = i + 1;
    }
    proof {
        assert(entries@.skip(i as int).len() == 0);
    }
    None
}

proof fn lemma_lookup_key_head(entries: Seq<(String, serde_json::Value)>, key: Seq<char>)
    requires
        entries.len() > 0,
        entries[0].0@ == key,
    ensures
        lookup_key(entries, key) == Some(entries[0].1),
{
}

proof fn lemma_lookup_key_tail(entries: Seq<(String, serde_json::Value)>, key: Seq<char>)
    requires
        entries.len() > 0,
        entries[0].0@ != key,
    ensures
        lookup_key(entries, key) == lookup_key(entries.drop_first(), key),
{
}

} // verus!
