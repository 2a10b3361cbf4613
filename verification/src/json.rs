//! JSON documents: their mathematical model, and what the library uses of `serde_json`.
//!
//! A [`Value`] is opaque to the verifier. [`json_of`] names the document that it holds, and
//! [`members_of`] the members of a `serde_json::Map`; the contracts of the whole library speak of
//! these.
use serde_json::Value;
use vstd::prelude::*;

verus! {

// ----- model -----------------------------------------------------------------------------------

/// A JSON document.
pub enum Json {
    Null,
    Bool(bool),
    /// A whole number between `i64::MIN` and `u64::MAX`.
    Int(int),
    /// Any other number, by the bits of the double that stands for it.
    Float(u64),
    Str(Seq<char>),
    Array(Seq<Json>),
    Object(Map<Seq<char>, Json>),
}

/// The members of a JSON object.
pub type Members = Map<Seq<char>, Json>;

/// The member `key` of a document; a document that is no object has none.
pub open spec fn member_of(doc: Json, key: Seq<char>) -> Option<Json> {
    match doc {
        Json::Object(members) => if members.contains_key(key) {
            Some(members[key])
        } else {
            None
        },
        _ => None,
    }
}

/// The text of the member `key`, where that member is a string.
pub open spec fn text_member_of(doc: Json, key: Seq<char>) -> Option<Seq<char>> {
    match member_of(doc, key) {
        Some(Json::Str(text)) => Some(text),
        _ => None,
    }
}

/// The items of the member `key`, where that member is an array; none otherwise.
pub open spec fn items_of(doc: Json, key: Seq<char>) -> Seq<Json> {
    match member_of(doc, key) {
        Some(Json::Array(items)) => items,
        _ => Seq::empty(),
    }
}

/// The document `{}`.
pub open spec fn empty_object() -> Json {
    Json::Object(Members::empty())
}

/// The document with the single member `key`.
pub open spec fn single(key: Seq<char>, doc: Json) -> Json {
    Json::Object(Members::empty().insert(key, doc))
}

/// `members` with `key` set, where there is something to set it to.
pub open spec fn put(members: Members, key: Seq<char>, doc: Option<Json>) -> Members {
    match doc {
        Some(d) => members.insert(key, d),
        None => members,
    }
}

/// The documents of a sequence of values.
pub open spec fn jsons_of(values: Seq<Value>) -> Seq<Json> {
    values.map_values(|v: Value| json_of(v))
}

/// The document of a value that may be absent.
pub open spec fn opt_json(value: Option<Value>) -> Option<Json> {
    match value {
        Some(v) => Some(json_of(v)),
        None => None,
    }
}

/// The text of a string that may be absent.
pub open spec fn opt_text(text: Option<String>) -> Option<Seq<char>> {
    match text {
        Some(t) => Some(t@),
        None => None,
    }
}

/// The items of a vector that may be absent.
pub open spec fn opt_seq<T>(items: Option<Vec<T>>) -> Option<Seq<T>> {
    match items {
        Some(v) => Some(v@),
        None => None,
    }
}

/// A string that may be absent, as a document.
pub open spec fn opt_str(text: Option<String>) -> Option<Json> {
    match text {
        Some(t) => Some(Json::Str(t@)),
        None => None,
    }
}

/// A count that may be absent, as a document.
pub open spec fn opt_count(n: Option<u32>) -> Option<Json> {
    match n {
        Some(k) => Some(Json::Int(k as int)),
        None => None,
    }
}

/// The strings of a sequence, as documents.
pub open spec fn strs(texts: Seq<String>) -> Seq<Json> {
    texts.map_values(|t: String| Json::Str(t@))
}

// ----- trusted: types of serde_json ------------------------------------------------------------

/// Declares `serde_json::Value`.
#[verifier::external_type_specification]
#[verifier::external_body]
pub struct ExValue(serde_json::Value);

/// Declares `serde_json::Map`.
#[verifier::external_type_specification]
#[verifier::external_body]
#[verifier::reject_recursive_types(K)]
#[verifier::reject_recursive_types(V)]
pub struct ExMap<K, V>(serde_json::Map<K, V>);

/// The document that a `Value` holds.
pub uninterp spec fn json_of(v: Value) -> Json;

/// The members that a `serde_json::Map` holds.
pub uninterp spec fn members_of(m: serde_json::Map<String, Value>) -> Members;

/// What `serde_json::from_slice` reads a document from: the document, or the text of its error.
pub uninterp spec fn json_from_bytes(bytes: Seq<u8>) -> Result<Json, Seq<char>>;

/// What `serde_json::from_str` reads: the document, or the text of its error.
pub uninterp spec fn json_from_text(text: Seq<char>) -> Result<Json, Seq<char>>;

/// What `serde_json::to_string` writes: the text, or the text of its error.
pub uninterp spec fn json_to_text(doc: Json) -> Result<Seq<char>, Seq<char>>;

// ----- trusted: functions of serde_json --------------------------------------------------------

/// `Value::clone` copies the document.
pub assume_specification[ <Value as Clone>::clone ](v: &Value) -> (r: Value)
    ensures
        json_of(r) == json_of(*v),
;

/// `Value::as_str` gives the text of a string, and nothing for any other document.
pub assume_specification<'a>[ Value::as_str ](v: &'a Value) -> (r: Option<&'a str>)
    ensures
        match r {
            Some(s) => json_of(*v) == Json::Str(s@),
            None => !(json_of(*v) is Str),
        },
;

/// `Value::as_array` gives the items of an array, and nothing for any other document.
pub assume_specification<'a>[ Value::as_array ](v: &'a Value) -> (r: Option<&'a Vec<Value>>)
    ensures
        match r {
            Some(items) => json_of(*v) == Json::Array(jsons_of(items@)),
            None => !(json_of(*v) is Array),
        },
;

/// `Value::as_u64` gives a whole number that a `u64` holds, and nothing for any other document.
pub assume_specification[ Value::as_u64 ](v: &Value) -> (r: Option<u64>)
    ensures
        match r {
            Some(n) => json_of(*v) == Json::Int(n as int),
            None => !(json_of(*v) matches Json::Int(n) && 0 <= n <= u64::MAX),
        },
;

/// `Value::is_object` tells whether the document is an object.
pub assume_specification[ Value::is_object ](v: &Value) -> (r: bool)
    ensures
        r == (json_of(*v) is Object),
;

/// `Value::get` with a string gives that member of an object, and nothing where there is none or
/// the document is no object.
#[verifier::external_body]
pub(crate) fn member<'a>(v: &'a Value, key: &str) -> (r: Option<&'a Value>)
    ensures
        match r {
            Some(m) => member_of(json_of(*v), key@) == Some(json_of(*m)),
            None => member_of(json_of(*v), key@) is None,
        },
{
    v.get(key)
}

/// `Value::Null` is the document `null`.
#[verifier::external_body]
pub(crate) fn null_value() -> (v: Value)
    ensures
        json_of(v) == Json::Null,
{
    Value::Null
}

/// `Value::String` holds a string.
#[verifier::external_body]
pub(crate) fn string_value(s: String) -> (v: Value)
    ensures
        json_of(v) == Json::Str(s@),
{
    Value::String(s)
}

/// `Value::from` of an `i64` holds that whole number.
#[verifier::external_body]
pub(crate) fn int_value(n: i64) -> (v: Value)
    ensures
        json_of(v) == Json::Int(n as int),
{
    Value::from(n)
}

/// `Value::Array` holds the documents of its items, in order.
#[verifier::external_body]
pub(crate) fn array_value(items: Vec<Value>) -> (v: Value)
    ensures
        json_of(v) == Json::Array(jsons_of(items@)),
{
    Value::Array(items)
}

/// `Value::Object` holds the members of its map.
#[verifier::external_body]
pub(crate) fn object_value(m: serde_json::Map<String, Value>) -> (v: Value)
    ensures
        json_of(v) == Json::Object(members_of(m)),
{
    Value::Object(m)
}

/// `Map::new` makes a map without members.
pub assume_specification[ serde_json::Map::<String, Value>::new ]() -> (m: serde_json::Map<String, Value>)
    ensures
        members_of(m) == Members::empty(),
;

/// `Map::insert` sets one member, in place of the one of that key where there was one, which it
/// then returns.
pub assume_specification[ serde_json::Map::<String, Value>::insert ](
    m: &mut serde_json::Map<String, Value>,
    k: String,
    v: Value,
) -> (r: Option<Value>)
    ensures
        members_of(*final(m)) == members_of(*old(m)).insert(k@, json_of(v)),
        opt_json(r) == member_of(Json::Object(members_of(*old(m))), k@),
;

/// `Map::append` moves every member of `other` into the map, in place of those of the same key,
/// and leaves `other` empty.
pub assume_specification[ serde_json::Map::<String, Value>::append ](
    m: &mut serde_json::Map<String, Value>,
    other: &mut serde_json::Map<String, Value>,
)
    ensures
        members_of(*final(m)) == members_of(*old(m)).union_prefer_right(members_of(*old(other))),
        members_of(*final(other)) == Members::empty(),
;

/// `Map::is_empty` tells whether the map has no member.
pub assume_specification[ serde_json::Map::<String, Value>::is_empty ](
    m: &serde_json::Map<String, Value>,
) -> (r: bool)
    ensures
        r == (members_of(*m) == Members::empty()),
;

/// `Map::clone` copies the members.
pub assume_specification[ <serde_json::Map<String, Value> as Clone>::clone ](
    m: &serde_json::Map<String, Value>,
) -> (r: serde_json::Map<String, Value>)
    ensures
        members_of(r) == members_of(*m),
;

/// `serde_json::from_slice` reads a document, or gives an error, here by its text.
#[verifier::external_body]
pub(crate) fn read_bytes(bytes: &[u8]) -> (r: Result<Value, String>)
    ensures
        match r {
            Ok(v) => json_from_bytes(bytes@) == Ok::<Json, Seq<char>>(json_of(v)),
            Err(e) => json_from_bytes(bytes@) == Err::<Json, Seq<char>>(e@),
        },
{
    serde_json::from_slice::<Value>(bytes).map_err(|e| e.to_string())
}

/// `serde_json::from_str` reads a document, or gives an error, here by its text.
#[verifier::external_body]
pub(crate) fn read_text(text: &str) -> (r: Result<Value, String>)
    ensures
        match r {
            Ok(v) => json_from_text(text@) == Ok::<Json, Seq<char>>(json_of(v)),
            Err(e) => json_from_text(text@) == Err::<Json, Seq<char>>(e@),
        },
{
    serde_json::from_str::<Value>(text).map_err(|e| e.to_string())
}

/// `serde_json::to_string` writes a document, or gives an error, here by its text. The map behind
/// an object is sorted by key, so the text depends on the members alone.
#[verifier::external_body]
pub(crate) fn write_text(v: &Value) -> (r: Result<String, String>)
    ensures
        match r {
            Ok(s) => json_to_text(json_of(*v)) == Ok::<Seq<char>, Seq<char>>(s@),
            Err(e) => json_to_text(json_of(*v)) == Err::<Seq<char>, Seq<char>>(e@),
        },
{
    serde_json::to_string(v).map_err(|e| e.to_string())
}

// ----- building and reading documents ----------------------------------------------------------

/// Sets the member `key` to a string.
pub(crate) fn set_text(m: &mut serde_json::Map<String, Value>, key: &str, text: &str)
    ensures
        members_of(*final(m)) == members_of(*old(m)).insert(key@, Json::Str(text@)),
{
    m.insert(key.to_owned(), string_value(text.to_owned()));
}

/// Sets the member `key` to a string, where there is one.
pub(crate) fn put_text(m: &mut serde_json::Map<String, Value>, key: &str, text: Option<String>)
    ensures
        members_of(*final(m)) == put(members_of(*old(m)), key@, opt_str(text)),
{
    if let Some(t) = text {
        m.insert(key.to_owned(), string_value(t));
    }
}

/// Sets the member `key` to a count, where there is one.
pub(crate) fn put_count(m: &mut serde_json::Map<String, Value>, key: &str, n: Option<u32>)
    ensures
        members_of(*final(m)) == put(members_of(*old(m)), key@, opt_count(n)),
{
    if let Some(k) = n {
        m.insert(key.to_owned(), int_value(k as i64));
    }
}

/// Sets the member `key` to a document, where there is one.
pub(crate) fn put_value(m: &mut serde_json::Map<String, Value>, key: &str, v: Option<Value>)
    ensures
        members_of(*final(m)) == put(members_of(*old(m)), key@, opt_json(v)),
{
    if let Some(d) = v {
        m.insert(key.to_owned(), d);
    }
}

/// The object with the single member `key`.
pub(crate) fn single_value(key: &str, v: Value) -> (r: Value)
    ensures
        json_of(r) == single(key@, json_of(v)),
{
    let mut m = serde_json::Map::new();
    m.insert(key.to_owned(), v);
    object_value(m)
}

/// The object without members.
pub(crate) fn empty_value() -> (r: Value)
    ensures
        json_of(r) == empty_object(),
{
    object_value(serde_json::Map::new())
}

/// The array of the given strings.
pub(crate) fn texts_value(texts: Vec<String>) -> (r: Value)
    ensures
        json_of(r) == Json::Array(strs(texts@)),
{
    let mut items: Vec<Value> = Vec::new();
    let mut i: usize = 0;
    while i < texts.len()
        invariant
            i <= texts.len(),
            items@.len() == i,
            forall|j: int| 0 <= j < i ==> json_of(#[trigger] items@[j]) == Json::Str(texts@[j]@),
        decreases texts.len() - i,
    {
        items.push(string_value(texts[i].clone()));
        i += 1;
    }
    assert(jsons_of(items@) =~= strs(texts@));
    array_value(items)
}

/// The text of the member `key`, where that member is a string.
pub(crate) fn text_member<'a>(v: &'a Value, key: &str) -> (r: Option<&'a str>)
    ensures
        match r {
            Some(s) => text_member_of(json_of(*v), key@) == Some(s@),
            None => text_member_of(json_of(*v), key@) is None,
        },
{
    match member(v, key) {
        Some(m) => m.as_str(),
        None => None,
    }
}

/// The items of the array `result[key]`; none where the member is missing or is no array.
pub fn unwrap_list(result: &Value, key: &str) -> (r: Vec<Value>)
    ensures
        jsons_of(r@) == items_of(json_of(*result), key@),
{
    match member(result, key) {
        Some(m) => match m.as_array() {
            Some(items) => {
                let out = items.clone();
                assert(jsons_of(out@) =~= jsons_of(items@));
                out
            },
            None => {
                let out: Vec<Value> = Vec::new();
                assert(jsons_of(out@) =~= Seq::empty());
                out
            },
        },
        None => {
            let out: Vec<Value> = Vec::new();
            assert(jsons_of(out@) =~= Seq::empty());
            out
        },
    }
}

} // verus!
