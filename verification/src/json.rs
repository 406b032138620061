//! JSON values as `serde_json` holds them, and what the library knows of them.
//!
//! A `serde_json::Value` is opaque to the verifier. Contracts speak of the
//! document that a value holds, a [`Json`]. Nothing here is proved of
//! `serde_json` itself: each function below that takes or gives a value calls
//! one function of that crate, and its contract is what the library takes that
//! function to do.

use vstd::prelude::*;

verus! {

/// `serde_json::Value`, declared so that it can stand in signatures. The
/// verifier sees nothing inside it.
#[verifier::external_type_specification]
#[verifier::external_body]
pub struct ExValue(serde_json::Value);

/// `serde_json::Error`, declared so that a failed call can hand it back.
#[verifier::external_type_specification]
#[verifier::external_body]
pub struct ExError(serde_json::Error);

/// A JSON document, as far as the library reads it.
pub enum Json {
    /// A string.
    Str(Seq<char>),
    /// An array, with its items in order.
    Array(Seq<Json>),
    /// An object, with its members, each a name and a value, in order.
    Object(Seq<(Seq<char>, Json)>),
    /// A null, a boolean or a number.
    Other,
}

/// The document that a value holds.
pub uninterp spec fn doc(v: serde_json::Value) -> Json;

/// The document that `serde_json` reads from a text; `None` for a text that it
/// does not accept.
pub uninterp spec fn parsed(text: Seq<char>) -> Option<Json>;

/// What `serde_json` prints, indented, for a document made of strings, arrays
/// and objects only: the text, or `None` for a document that it fails to
/// print.
pub uninterp spec fn printed(j: Json) -> Option<Seq<char>>;

/// The documents that a sequence of values holds.
pub open spec fn docs(values: Seq<serde_json::Value>) -> Seq<Json> {
    values.map_values(|v: serde_json::Value| doc(v))
}

/// The members that a sequence of named values stands for.
pub open spec fn member_docs(members: Seq<(String, serde_json::Value)>) -> Seq<(Seq<char>, Json)> {
    members.map_values(|m: (String, serde_json::Value)| (m.0@, doc(m.1)))
}

/// No two members carry the same name.
pub open spec fn distinct_names(members: Seq<(Seq<char>, Json)>) -> bool {
    forall|i: int, j: int|
        0 <= i < j < members.len() ==> (#[trigger] members[i]).0 != (#[trigger] members[j]).0
}

/// The document is made of strings, arrays and objects only.
pub open spec fn strings_only(j: Json) -> bool
    decreases j,
{
    match j {
        Json::Str(_) => true,
        Json::Array(items) => forall|i: int|
            0 <= i < items.len() ==> strings_only(#[trigger] items[i]),
        Json::Object(members) => forall|i: int|
            0 <= i < members.len() ==> strings_only((#[trigger] members[i]).1),
        Json::Other => false,
    }
}

/// The document is an object, and one of its members carries the name.
pub open spec fn has_member(j: Json, name: Seq<char>) -> bool {
    j is Object && exists|i: int|
        0 <= i < j->Object_0.len() && (#[trigger] j->Object_0[i]).0 == name
}

/// The value under a name in an object; `None` where the document is no object
/// or holds no member of that name.
pub open spec fn member(j: Json, name: Seq<char>) -> Option<Json> {
    if has_member(j, name) {
        let members = j->Object_0;
        let i = choose|i: int| 0 <= i < members.len() && (#[trigger] members[i]).0 == name;
        Some(members[i].1)
    } else {
        None
    }
}

/// In an object that holds no name twice, the value under a member's name is
/// that member's value.
pub(crate) proof fn lemma_member_at(members: Seq<(Seq<char>, Json)>, i: int)
    requires
        distinct_names(members),
        0 <= i < members.len(),
    ensures
        member(Json::Object(members), members[i].0) == Some(members[i].1),
{
    let name = members[i].0;
    let j = Json::Object(members);
    assert(j->Object_0[i].0 == name);
    let k = choose|k: int| 0 <= k < members.len() && (#[trigger] members[k]).0 == name;
    if k < i {
        assert(members[k].0 != members[i].0);
    }
    if i < k {
        assert(members[i].0 != members[k].0);
    }
}

/// `serde_json::from_str` at the type `Value`. The value read holds the
/// document named [`parsed`], and the call fails on exactly the texts for
/// which there is none.
#[verifier::external_body]
pub(crate) fn parse_value(text: &str) -> (r: Result<serde_json::Value, serde_json::Error>)
    ensures
        match r {
            Ok(v) => parsed(text@) == Some(doc(v)),
            Err(_) => parsed(text@) is None,
        },
{
    serde_json::from_str::<serde_json::Value>(text)
}

/// `Value::as_array`: the items of an array, and `None` for any other value.
#[verifier::external_body]
pub(crate) fn array_items<'a>(v: &'a serde_json::Value) -> (r: Option<&'a Vec<serde_json::Value>>)
    ensures
        match r {
            Some(items) => doc(*v) == Json::Array(docs(items@)),
            None => !(doc(*v) is Array),
        },
{
    v.as_array()
}

/// `Value::get` with a string as the index: the value under that name in an
/// object, and `None` for an object without the name and for any other value.
#[verifier::external_body]
pub(crate) fn object_member<'a>(v: &'a serde_json::Value, name: &str) -> (r: Option<
    &'a serde_json::Value,
>)
    ensures
        match r {
            Some(m) => member(doc(*v), name@) == Some(doc(*m)),
            None => member(doc(*v), name@) is None,
        },
{
    v.get(name)
}

/// `Value::as_str`: the text of a string, and `None` for any other value.
#[verifier::external_body]
pub(crate) fn string_text<'a>(v: &'a serde_json::Value) -> (r: Option<&'a str>)
    ensures
        match r {
            Some(s) => doc(*v) == Json::Str(s@),
            None => !(doc(*v) is Str),
        },
{
    v.as_str()
}

/// `Value::String`: the string that holds a text.
#[verifier::external_body]
pub(crate) fn string_value(s: String) -> (v: serde_json::Value)
    ensures
        doc(v) == Json::Str(s@),
{
    serde_json::Value::String(s)
}

/// `Value::Array`: the array that holds the given values in their order.
#[verifier::external_body]
pub(crate) fn array_value(items: Vec<serde_json::Value>) -> (v: serde_json::Value)
    ensures
        doc(v) == Json::Array(docs(items@)),
{
    serde_json::Value::Array(items)
}

/// `Value::Object` over `serde_json::Map::from_iter`: given no name twice, the
/// object holds the given members in their order. The map keeps the order in
/// which members were put in, since `serde_json` is built with its feature
/// `preserve_order`.
#[verifier::external_body]
pub(crate) fn object_value(members: Vec<(String, serde_json::Value)>) -> (v: serde_json::Value)
    requires
        distinct_names(member_docs(members@)),
    ensures
        doc(v) == Json::Object(member_docs(members@)),
{
    serde_json::Value::Object(serde_json::Map::from_iter(members))
}

/// `serde_json::to_string_pretty` on a value. On a document made of strings,
/// arrays and objects only, the outcome is the one named [`printed`]: the same
/// document gives the same text, or fails, every time. Nothing is claimed of
/// which documents it prints.
#[verifier::external_body]
pub(crate) fn print_pretty(v: &serde_json::Value) -> (r: Result<String, serde_json::Error>)
    ensures
        strings_only(doc(*v)) ==> match r {
            Ok(s) => printed(doc(*v)) == Some(s@),
            Err(_) => printed(doc(*v)) is None,
        },
{
    serde_json::to_string_pretty(v)
}

/// `to_string` on a `serde_json::Error`: the description of the error. Nothing
/// is claimed of the text.
#[verifier::external_body]
pub(crate) fn error_text(e: &serde_json::Error) -> (s: String) {
    e.to_string()
}

} // verus!
