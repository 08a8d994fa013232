//! JSON documents as `serde_json` holds them, and the calls into `serde_json`
//! that the wire protocol is built on.
//!
//! Nothing in this file is proved. Each function below makes one call into
//! `serde_json`, and its contract states, over the mathematical documents
//! defined here, what that call is relied on to do.

use vstd::prelude::*;

verus! {

/// A JSON document as a mathematical value.
pub enum Doc {
    Null,
    Bool(bool),
    /// A number, told apart by the text that `serde_json` prints for it.
    Number(Seq<char>),
    Text(Seq<char>),
    List(Seq<Doc>),
    /// An object: its members by key, each key once.
    Object(Map<Seq<char>, Doc>),
}

/// `serde_json::Value`, of which the verifier sees nothing but `doc_of`.
#[verifier::external_type_specification]
#[verifier::external_body]
pub struct ExValue(serde_json::Value);

/// `serde_json::Error`, of which the verifier sees nothing.
#[verifier::external_type_specification]
#[verifier::external_body]
pub struct ExError(serde_json::Error);

/// `serde_json::Map`, of which the verifier sees nothing but `members_of`.
#[verifier::external_type_specification]
#[verifier::external_body]
#[verifier::reject_recursive_types(K)]
#[verifier::reject_recursive_types(V)]
pub struct ExMembers<K, V>(serde_json::Map<K, V>);

/// The document that a `serde_json::Value` holds.
pub uninterp spec fn doc_of(value: serde_json::Value) -> Doc;

/// The members that a `serde_json::Map` holds, by key.
pub uninterp spec fn members_of(members: serde_json::Map<String, serde_json::Value>) -> Map<
    Seq<char>,
    Doc,
>;

/// What `serde_json::from_str` makes of a text: the document it reads, or
/// `None` where it refuses the text.
pub uninterp spec fn parse_doc(text: Seq<char>) -> Option<Doc>;

/// The compact text that `serde_json` prints for a document.
pub uninterp spec fn render_doc(doc: Doc) -> Seq<char>;

/// The documents that a sequence of values holds, in order.
pub open spec fn docs_of(values: Seq<serde_json::Value>) -> Seq<Doc> {
    Seq::new(values.len(), |i: int| doc_of(values[i]))
}

/// The member of an object under a key; `None` for a key that the object
/// lacks and for a document that is no object.
pub open spec fn member_of(doc: Doc, key: Seq<char>) -> Option<Doc> {
    match doc {
        Doc::Object(members) => if members.dom().contains(key) {
            Some(members[key])
        } else {
            None
        },
        _ => None,
    }
}

/// The members of the empty object.
pub open spec fn empty_members() -> Map<Seq<char>, Doc> {
    Map::empty()
}

/// Null, a boolean or a string.
pub open spec fn is_scalar(doc: Doc) -> bool {
    doc is Null || doc is Bool || doc is Text
}

/// A scalar, or a list of scalars.
pub open spec fn is_shallow(doc: Doc) -> bool {
    ||| is_scalar(doc)
    ||| doc matches Doc::List(items) && forall|i: int|
        0 <= i < items.len() ==> is_scalar(#[trigger] items[i])
}

/// An object whose members are all shallow: the shape of every document that
/// this library writes.
pub open spec fn is_record(doc: Doc) -> bool {
    doc matches Doc::Object(members) && forall|key: Seq<char>|
        members.dom().contains(key) ==> is_shallow(#[trigger] members[key])
}

/// `serde_json::from_str` at `serde_json::Value`: the document that the text
/// holds, or the error with which the text is refused.
#[verifier::external_body]
pub(crate) fn parse(text: &str) -> (r: Result<serde_json::Value, serde_json::Error>)
    ensures
        match r {
            Ok(value) => parse_doc(text@) == Some(doc_of(value)),
            Err(_) => parse_doc(text@) is None,
        },
{
    serde_json::from_str::<serde_json::Value>(text)
}

/// `to_string` of a `serde_json::Value`, that is its `Display`: the compact
/// text of the document. Relied on beyond that: `serde_json::from_str` reads
/// the text of a record back as the same document. (A record holds no number
/// and nests two levels, so neither the rounding of floats nor the parser's
/// depth limit comes into it.)
#[verifier::external_body]
pub(crate) fn render(value: &serde_json::Value) -> (r: String)
    ensures
        r@ == render_doc(doc_of(*value)),
        is_record(doc_of(*value)) ==> parse_doc(r@) == Some(doc_of(*value)),
{
    value.to_string()
}

/// `serde_json::Value::get` with a string index: the member under `key`
/// where the value is an object that has one, else `None`.
#[verifier::external_body]
pub(crate) fn member<'a>(value: &'a serde_json::Value, key: &str) -> (r: Option<
    &'a serde_json::Value,
>)
    ensures
        match r {
            Some(found) => member_of(doc_of(*value), key@) == Some(doc_of(*found)),
            None => member_of(doc_of(*value), key@) is None,
        },
{
    value.get(key)
}

/// `serde_json::Value::as_str`: the text of a string, `None` for any other
/// value.
#[verifier::external_body]
pub(crate) fn as_text<'a>(value: &'a serde_json::Value) -> (r: Option<&'a str>)
    ensures
        match r {
            Some(text) => doc_of(*value) == Doc::Text(text@),
            None => !(doc_of(*value) is Text),
        },
{
    value.as_str()
}

/// `serde_json::Value::as_array`: the items of an array, `None` for any other
/// value.
#[verifier::external_body]
pub(crate) fn as_list<'a>(value: &'a serde_json::Value) -> (r: Option<&'a Vec<serde_json::Value>>)
    ensures
        match r {
            Some(items) => doc_of(*value) == Doc::List(docs_of(items@)),
            None => !(doc_of(*value) is List),
        },
{
    value.as_array()
}

/// `serde_json::Value::is_null`.
#[verifier::external_body]
pub(crate) fn is_null(value: &serde_json::Value) -> (r: bool)
    ensures
        r == (doc_of(*value) is Null),
{
    value.is_null()
}

/// The variant `serde_json::Value::Null`.
#[verifier::external_body]
pub(crate) fn null_value() -> (r: serde_json::Value)
    ensures
        doc_of(r) == Doc::Null,
{
    serde_json::Value::Null
}

/// The variant `serde_json::Value::String`.
#[verifier::external_body]
pub(crate) fn text_value(text: String) -> (r: serde_json::Value)
    ensures
        doc_of(r) == Doc::Text(text@),
{
    serde_json::Value::String(text)
}

/// The variant `serde_json::Value::Array`.
#[verifier::external_body]
pub(crate) fn list_value(items: Vec<serde_json::Value>) -> (r: serde_json::Value)
    ensures
        doc_of(r) == Doc::List(docs_of(items@)),
{
    serde_json::Value::Array(items)
}

/// The variant `serde_json::Value::Object`.
#[verifier::external_body]
pub(crate) fn object_value(members: serde_json::Map<String, serde_json::Value>) -> (r:
    serde_json::Value)
    ensures
        doc_of(r) == Doc::Object(members_of(members)),
{
    serde_json::Value::Object(members)
}

/// `serde_json::Map::new`: a map without members.
#[verifier::external_body]
pub(crate) fn no_members() -> (r: serde_json::Map<String, serde_json::Value>)
    ensures
        members_of(r) == empty_members(),
{
    serde_json::Map::new()
}

/// `serde_json::Map::insert`: the value stands under the key afterwards,
/// the other members stay, and the value that stood there before is returned.
#[verifier::external_body]
pub(crate) fn put_member(
    members: &mut serde_json::Map<String, serde_json::Value>,
    key: String,
    value: serde_json::Value,
) -> (r: Option<serde_json::Value>)
    ensures
        members_of(*final(members)) == members_of(*old(members)).insert(key@, doc_of(value)),
        r.is_some() == members_of(*old(members)).dom().contains(key@),
        r matches Some(before) ==> doc_of(before) == members_of(*old(members))[key@],
{
    members.insert(key, value)
}

} // verus!
