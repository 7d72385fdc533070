//! Trusted boundary to the JSON library.
//!
//! A page response arrives as text and is parsed by serde_json. The
//! parsed document is opaque to the verifier, but every read below is a
//! function of its arguments alone, so each carries a name — `doc_of`,
//! `field_of`, `str_of`, `array_of` — that the library's contracts
//! compose into exact statements about the fixed field paths the engine
//! walks. Everything the engine decides is decided on the plain values
//! these functions hand back.

use vstd::prelude::*;

verus! {

/// serde_json's parsed document type, declared so that values of it can
/// stand in the library's own types and signatures.
#[verifier::external_type_specification]
#[verifier::external_body]
pub struct ExValue(serde_json::Value);

/// The document serde_json parses out of a text, when it accepts it.
pub uninterp spec fn doc_of(body: Seq<char>) -> Option<serde_json::Value>;

/// Relies on serde_json::from_str::<Value>: parses one JSON document from
/// text, a function of the text alone, named `doc_of`. None when
/// serde_json does not accept the text — invalid JSON, or nesting beyond
/// its recursion limit.
#[verifier::external_body]
pub(crate) fn json_parse(body: &str) -> (r: Option<serde_json::Value>)
    ensures
        r == doc_of(body@),
{
    serde_json::from_str(body).ok()
}

/// The field of a JSON object under the given key; None when the value is
/// not an object or has no such field.
pub uninterp spec fn field_of(v: serde_json::Value, key: Seq<char>) -> Option<serde_json::Value>;

/// Relies on serde_json::Value::get with a string index: the object field
/// under the key, a pure lookup named `field_of`.
#[verifier::external_body]
pub(crate) fn json_get<'a>(v: &'a serde_json::Value, key: &str) -> (r: Option<
    &'a serde_json::Value,
>)
    ensures
        r is Some <==> field_of(*v, key@) is Some,
        r matches Some(f) ==> *f == field_of(*v, key@)->Some_0,
{
    v.get(key)
}

/// The text of a JSON string value; None for every other kind of value.
pub uninterp spec fn str_of(v: serde_json::Value) -> Option<Seq<char>>;

/// Relies on serde_json::Value::as_str: the borrowed text when the value
/// is a JSON string, named `str_of`.
#[verifier::external_body]
pub(crate) fn json_as_str(v: &serde_json::Value) -> (r: Option<&str>)
    ensures
        r is Some <==> str_of(*v) is Some,
        r matches Some(s) ==> s@ == str_of(*v)->Some_0,
{
    v.as_str()
}

/// The elements of a JSON array value; None for every other kind of value.
pub uninterp spec fn array_of(v: serde_json::Value) -> Option<Seq<serde_json::Value>>;

/// Relies on serde_json::Value::as_array: the borrowed elements when the
/// value is a JSON array, named `array_of`.
#[verifier::external_body]
pub(crate) fn json_as_array<'a>(v: &'a serde_json::Value) -> (r: Option<
    &'a Vec<serde_json::Value>,
>)
    ensures
        r is Some <==> array_of(*v) is Some,
        r matches Some(a) ==> a@ == array_of(*v)->Some_0,
{
    v.as_array()
}

/// Relies on serde_json::Value's derived Clone: an equal owned copy of
/// the document.
#[verifier::external_body]
pub(crate) fn json_clone(v: &serde_json::Value) -> (r: serde_json::Value)
    ensures
        r == *v,
{
    v.clone()
}

} // verus!
