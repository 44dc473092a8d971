//! JSON values, as the remote API exchanges them.
//!
//! The concrete values are `serde_json::Value`, which this library treats as
//! opaque. Their content is modeled by the abstraction [`json_rep`], a
//! mathematical JSON tree; every trusted wrapper around a `serde_json` call
//! states what that call does in terms of the model, and all logic that
//! reads or builds JSON is verified against it.

use vstd::prelude::*;

verus! {

/// The empty JSON object content.
pub open spec fn empty_obj() -> Map<Seq<char>, JsonRep> {
    Map::empty()
}

/// The mathematical content of a JSON value.
pub enum JsonRep {
    /// `null`.
    Null,
    /// A boolean.
    Bool(bool),
    /// An integer number. Numbers that are not integers are [`JsonRep::Float`].
    Int(int),
    /// A number that is not an integer; nothing more is modeled of it.
    Float,
    /// A string.
    Str(Seq<char>),
    /// An array.
    Arr(Seq<JsonRep>),
    /// An object: a map from field names to field values.
    Obj(Map<Seq<char>, JsonRep>),
}

#[verifier::external_type_specification]
#[verifier::external_body]
pub struct ExValue(serde_json::Value);

#[verifier::external_type_specification]
#[verifier::external_body]
#[verifier::reject_recursive_types(K)]
#[verifier::reject_recursive_types(V)]
pub struct ExMap<K, V>(serde_json::Map<K, V>);

/// The content of a `serde_json::Value`.
pub uninterp spec fn json_rep(v: serde_json::Value) -> JsonRep;

/// The content of a `serde_json::Map`, the object representation of
/// `serde_json`.
pub uninterp spec fn json_map_rep(m: serde_json::Map<String, serde_json::Value>) -> Map<
    Seq<char>,
    JsonRep,
>;

/// What parsing a string as JSON yields: the content of the parsed value,
/// or nothing when the string is not valid JSON.
pub uninterp spec fn json_parsed(s: Seq<char>) -> Option<JsonRep>;

/// Relies on serde_json::from_str::<Value>: parses the string as JSON;
/// parsing is a function of the string alone.
#[verifier::external_body]
pub(crate) fn json_from_str(s: &str) -> (r: Result<serde_json::Value, String>)
    ensures
        r matches Ok(v) ==> json_parsed(s@) matches Some(rep) && json_rep(v) == rep,
        r is Err ==> json_parsed(s@) is None,
        json_parsed(s@) is Some ==> r is Ok,
{
    match serde_json::from_str::<serde_json::Value>(s) {
        Ok(v) => Ok(v),
        Err(e) => Err(e.to_string()),
    }
}

/// Relies on serde_json::Value::is_object.
#[verifier::external_body]
pub(crate) fn value_is_object(v: &serde_json::Value) -> (r: bool)
    ensures
        r == (json_rep(*v) is Obj),
{
    v.is_object()
}

/// Relies on serde_json::Value::get with a string index: the named field of
/// an object, and `None` on anything that is not an object.
#[verifier::external_body]
pub(crate) fn value_get<'a>(v: &'a serde_json::Value, key: &str) -> (r: Option<&'a serde_json::Value>)
    ensures
        json_rep(*v) matches JsonRep::Obj(fields) ==> {
            &&& (r is Some <==> fields.contains_key(key@))
            &&& (r matches Some(w) ==> json_rep(*w) == fields[key@])
        },
        !(json_rep(*v) is Obj) ==> r is None,
{
    v.get(key)
}

/// Relies on serde_json::Value::as_str: the content of a string value.
#[verifier::external_body]
pub(crate) fn value_as_str(v: &serde_json::Value) -> (r: Option<String>)
    ensures
        r matches Some(rs) ==> json_rep(*v) == JsonRep::Str(rs@),
        json_rep(*v) is Str ==> r is Some,
        !(json_rep(*v) is Str) ==> r is None,
{
    match v.as_str() {
        Some(s) => Some(s.to_owned()),
        None => None,
    }
}

/// Relies on serde_json::Value::as_bool: the content of a boolean value.
#[verifier::external_body]
pub(crate) fn value_as_bool(v: &serde_json::Value) -> (r: Option<bool>)
    ensures
        json_rep(*v) matches JsonRep::Bool(b) ==> r == Some(b),
        !(json_rep(*v) is Bool) ==> r is None,
{
    v.as_bool()
}

/// Relies on serde_json::Value::as_i64: an integer number, when it fits
/// an `i64`.
#[verifier::external_body]
pub(crate) fn value_as_i64(v: &serde_json::Value) -> (r: Option<i64>)
    ensures
        r matches Some(i) ==> json_rep(*v) == JsonRep::Int(i as int),
        r is None ==> (match json_rep(*v) {
            JsonRep::Int(i) => !(i64::MIN <= i <= i64::MAX),
            _ => true,
        }),
{
    v.as_i64()
}

/// Relies on serde_json::Value::as_u64: an integer number, when it fits
/// a `u64`.
#[verifier::external_body]
pub(crate) fn value_as_u64(v: &serde_json::Value) -> (r: Option<u64>)
    ensures
        r matches Some(u) ==> json_rep(*v) == JsonRep::Int(u as int),
        r is None ==> (match json_rep(*v) {
            JsonRep::Int(i) => !(0 <= i <= u64::MAX),
            _ => true,
        }),
{
    v.as_u64()
}

/// Relies on serde_json::Value::as_array: the elements of an array value.
#[verifier::external_body]
pub(crate) fn value_as_array(v: &serde_json::Value) -> (r: Option<&Vec<serde_json::Value>>)
    ensures
        r matches Some(a) ==> json_rep(*v) == JsonRep::Arr(
            a@.map_values(|x: serde_json::Value| json_rep(x)),
        ),
        json_rep(*v) is Arr ==> r is Some,
        !(json_rep(*v) is Arr) ==> r is None,
{
    v.as_array()
}

/// Relies on serde_json::Value::clone: the clone has the same content.
#[verifier::external_body]
pub(crate) fn value_clone(v: &serde_json::Value) -> (r: serde_json::Value)
    ensures
        json_rep(r) == json_rep(*v),
{
    v.clone()
}

/// Relies on the serde_json::Value::Null constructor.
#[verifier::external_body]
pub(crate) fn value_null() -> (r: serde_json::Value)
    ensures
        json_rep(r) == JsonRep::Null,
{
    serde_json::Value::Null
}

/// Relies on the serde_json::Value::String constructor.
#[verifier::external_body]
pub(crate) fn value_string(s: String) -> (r: serde_json::Value)
    ensures
        json_rep(r) == JsonRep::Str(s@),
{
    serde_json::Value::String(s)
}

/// Relies on the serde_json::Value::Bool constructor.
#[verifier::external_body]
pub(crate) fn value_bool(b: bool) -> (r: serde_json::Value)
    ensures
        json_rep(r) == JsonRep::Bool(b),
{
    serde_json::Value::Bool(b)
}

/// Relies on serde_json::Value::from for i64: an integer number value.
#[verifier::external_body]
pub(crate) fn value_i64(n: i64) -> (r: serde_json::Value)
    ensures
        json_rep(r) == JsonRep::Int(n as int),
{
    serde_json::Value::from(n)
}

/// Relies on the serde_json::Value::Array constructor.
#[verifier::external_body]
pub(crate) fn value_array(items: Vec<serde_json::Value>) -> (r: serde_json::Value)
    ensures
        json_rep(r) == JsonRep::Arr(items@.map_values(|x: serde_json::Value| json_rep(x))),
{
    serde_json::Value::Array(items)
}

/// Relies on serde_json::Map::new: the empty object.
#[verifier::external_body]
pub(crate) fn map_new() -> (r: serde_json::Map<String, serde_json::Value>)
    ensures
        json_map_rep(r) == empty_obj(),
{
    serde_json::Map::new()
}

/// Relies on serde_json::Map::insert: binds the key to the value.
#[verifier::external_body]
pub(crate) fn map_insert(
    m: &mut serde_json::Map<String, serde_json::Value>,
    k: String,
    v: serde_json::Value,
)
    ensures
        json_map_rep(*final(m)) == json_map_rep(*old(m)).insert(k@, json_rep(v)),
{
    m.insert(k, v);
}

/// Relies on the serde_json::Value::Object constructor.
#[verifier::external_body]
pub(crate) fn value_object(m: serde_json::Map<String, serde_json::Value>) -> (r: serde_json::Value)
    ensures
        json_rep(r) == JsonRep::Obj(json_map_rep(m)),
{
    serde_json::Value::Object(m)
}

/// The named field of an object content, when present.
pub open spec fn obj_field(rep: JsonRep, key: Seq<char>) -> Option<JsonRep> {
    match rep {
        JsonRep::Obj(fields) => if fields.contains_key(key) {
            Some(fields[key])
        } else {
            None
        },
        _ => None,
    }
}

/// The named field of an object content, when present and a string.
pub open spec fn obj_str_field(rep: JsonRep, key: Seq<char>) -> Option<Seq<char>> {
    match rep {
        JsonRep::Obj(fields) => if fields.contains_key(key) {
            match fields[key] {
                JsonRep::Str(s) => Some(s),
                _ => None,
            }
        } else {
            None
        },
        _ => None,
    }
}

/// Read a string-valued field of a JSON object: the field's content when
/// the value is an object, has the field, and the field is a string.
pub fn get_string_field(v: &serde_json::Value, key: &str) -> (r: Option<String>)
    ensures
        match obj_str_field(json_rep(*v), key@) {
            Some(s) => r matches Some(rs) && rs@ == s,
            None => r is None,
        },
{
    match value_get(v, key) {
        Some(w) => value_as_str(w),
        None => None,
    }
}

/// The named field of an object content, when present and a boolean.
pub open spec fn obj_bool_field(rep: JsonRep, key: Seq<char>) -> Option<bool> {
    match rep {
        JsonRep::Obj(fields) => if fields.contains_key(key) {
            match fields[key] {
                JsonRep::Bool(b) => Some(b),
                _ => None,
            }
        } else {
            None
        },
        _ => None,
    }
}

/// Read a boolean field of a JSON object.
pub fn get_bool_field(v: &serde_json::Value, key: &str) -> (r: Option<bool>)
    ensures
        r == obj_bool_field(json_rep(*v), key@),
{
    match value_get(v, key) {
        Some(w) => value_as_bool(w),
        None => None,
    }
}

/// The named field of an object content, when present and an integer that
/// fits a `u64`.
pub open spec fn obj_u64_field(rep: JsonRep, key: Seq<char>) -> Option<int> {
    match obj_field(rep, key) {
        Some(JsonRep::Int(i)) => if 0 <= i <= u64::MAX {
            Some(i)
        } else {
            None
        },
        _ => None,
    }
}

/// Read an unsigned integer field of a JSON object.
pub fn get_u64_field(v: &serde_json::Value, key: &str) -> (r: Option<u64>)
    ensures
        match obj_u64_field(json_rep(*v), key@) {
            Some(i) => r matches Some(u) && u as int == i,
            None => r is None,
        },
{
    match value_get(v, key) {
        Some(w) => value_as_u64(w),
        None => None,
    }
}

/// The named field of an object content, when present and an integer that
/// fits an `i64`.
pub open spec fn obj_i64_field(rep: JsonRep, key: Seq<char>) -> Option<int> {
    match obj_field(rep, key) {
        Some(JsonRep::Int(i)) => if i64::MIN <= i <= i64::MAX {
            Some(i)
        } else {
            None
        },
        _ => None,
    }
}

/// Read a signed integer field of a JSON object.
pub fn get_i64_field(v: &serde_json::Value, key: &str) -> (r: Option<i64>)
    ensures
        match obj_i64_field(json_rep(*v), key@) {
            Some(i) => r matches Some(n) && n as int == i,
            None => r is None,
        },
{
    match value_get(v, key) {
        Some(w) => value_as_i64(w),
        None => None,
    }
}

/// Whether an object content has the named field at all.
pub open spec fn obj_has_field(rep: JsonRep, key: Seq<char>) -> bool {
    match rep {
        JsonRep::Obj(fields) => fields.contains_key(key),
        _ => false,
    }
}

/// Whether the value is an object with the named field.
pub fn has_field(v: &serde_json::Value, key: &str) -> (r: bool)
    ensures
        r == obj_has_field(json_rep(*v), key@),
{
    match value_get(v, key) {
        Some(_) => true,
        None => false,
    }
}

} // verus!
