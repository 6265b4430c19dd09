//! Trusted interface to the JSON parser.
//!
//! Parsed documents are `serde_json::Value` trees, opaque to the verifier.
//! `Jv` is their mathematical model; the wrappers below relate each call
//! into `serde_json` to that model, and everything else the library does
//! with a document is verified against it.

use vstd::prelude::*;

verus! {

/// Mathematical model of a JSON value.  Numbers carry no payload because
/// the manifests the library reads never use one.
pub ghost enum Jv {
    Null,
    Bool(bool),
    Num,
    Str(Seq<char>),
    Arr(Seq<Jv>),
    Obj(Map<Seq<char>, Jv>),
}

#[verifier::external_type_specification]
#[verifier::external_body]
pub struct ExValue(serde_json::Value);

#[verifier::external_type_specification]
#[verifier::external_body]
#[verifier::reject_recursive_types(K)]
#[verifier::reject_recursive_types(V)]
pub struct ExJsonMap<K, V>(serde_json::Map<K, V>);

#[verifier::external_type_specification]
#[verifier::external_body]
pub struct ExJsonError(serde_json::Error);

/// The model of the JSON document that a piece of text parses to, or `None`
/// where the text is not valid JSON.
pub uninterp spec fn json_of(s: Seq<char>) -> Option<Jv>;

/// The model of one parsed `serde_json::Value`.
pub uninterp spec fn value_model(v: serde_json::Value) -> Jv;

/// The entries held by one parsed JSON object.
pub uninterp spec fn obj_model(m: serde_json::Map<String, serde_json::Value>) -> Map<
    Seq<char>,
    Jv,
>;

/// Relies on `serde_json::from_str::<Value>`: the result is a function of the
/// input text alone, and it is `Ok` exactly on valid JSON.
#[verifier::external_body]
pub(crate) fn parse_json(s: &str) -> (r: Result<serde_json::Value, serde_json::Error>)
    ensures
        r is Ok <==> json_of(s@) is Some,
        r matches Ok(v) ==> value_model(v) == json_of(s@)->Some_0,
{
    serde_json::from_str::<serde_json::Value>(s)
}

/// Relies on `serde_json::Value::as_object`: `Some` exactly when the value
/// is an object, and then the borrowed map holds the object's entries.
#[verifier::external_body]
pub(crate) fn value_as_object(v: &serde_json::Value) -> (r: Option<
    &serde_json::Map<String, serde_json::Value>,
>)
    ensures
        r is Some <==> value_model(*v) is Obj,
        r matches Some(m) ==> obj_model(*m) == value_model(*v)->Obj_0,
{
    v.as_object()
}

/// Relies on `serde_json::Map::get`: `Some` exactly when the key is present,
/// and then the borrowed value is the one stored under the key.
#[verifier::external_body]
pub(crate) fn obj_get<'a>(
    m: &'a serde_json::Map<String, serde_json::Value>,
    key: &str,
) -> (r: Option<&'a serde_json::Value>)
    ensures
        r is Some <==> obj_model(*m).contains_key(key@),
        r matches Some(v) ==> obj_model(*m).contains_key(key@) && value_model(*v) == obj_model(
            *m,
        )[key@],
{
    m.get(key)
}

/// Relies on `serde_json::Map::clone`: the clone holds the same entries.
#[verifier::external_body]
pub(crate) fn obj_clone(m: &serde_json::Map<String, serde_json::Value>) -> (r: serde_json::Map<
    String,
    serde_json::Value,
>)
    ensures
        obj_model(r) == obj_model(*m),
{
    m.clone()
}

/// Relies on `serde_json::Value::as_str`: `Some` exactly when the value is a
/// string, and then the borrowed slice is that string.
#[verifier::external_body]
pub(crate) fn value_as_str<'a>(v: &'a serde_json::Value) -> (r: Option<&'a str>)
    ensures
        r is Some <==> value_model(*v) is Str,
        r matches Some(s) ==> s@ == value_model(*v)->Str_0,
{
    v.as_str()
}

/// Relies on `serde_json::Value::as_array`: `Some` exactly when the value is
/// an array, and then the borrowed vector holds the array's elements in
/// order.
#[verifier::external_body]
pub(crate) fn value_as_array<'a>(v: &'a serde_json::Value) -> (r: Option<
    &'a Vec<serde_json::Value>,
>)
    ensures
        r is Some <==> value_model(*v) is Arr,
        r matches Some(a) ==> a@.map_values(|x: serde_json::Value| value_model(x)) == value_model(
            *v,
        )->Arr_0,
{
    v.as_array()
}

} // verus!
