//! Read access to a parsed JSON document.
//!
//! Parsing and lookup are `serde_json`'s work. What the rest of the library
//! knows of a document is a map from JSON Pointer strings to the kind of
//! value found there, together with the scalar it holds.

use crate::text::chars_of;
use vstd::prelude::*;

verus! {

/// What one position of a document holds.
pub enum Node {
    Null,
    Flag(bool),
    /// A number written as an integer, without fraction or exponent, that is
    /// not negative and fits `u64`.
    Count(u64),
    /// Any other number: a negative one, one written with a fraction or an
    /// exponent, such as `1.0` or `1e2`, and an integer beyond `u64`.
    Number,
    Text(Seq<char>),
    List,
    Object,
}

#[verifier::external_type_specification]
#[verifier::external_body]
pub struct ExValue(serde_json::Value);

#[verifier::external_type_specification]
#[verifier::external_body]
pub struct ExJsonError(serde_json::Error);

/// The positions of a document: each JSON Pointer that addresses a value in
/// it, with what that value is. The empty pointer addresses the document
/// itself.
pub uninterp spec fn document_nodes(doc: serde_json::Value) -> Map<Seq<char>, Node>;

/// The positions of the document that a text parses to, if it parses.
pub uninterp spec fn parsed_nodes(text: Seq<char>) -> Option<Map<Seq<char>, Node>>;

/// What a value itself is, apart from what lies below it.
pub open spec fn root(value: serde_json::Value) -> Node {
    document_nodes(value)[Seq::<char>::empty()]
}

/// `serde_json::from_str` at type `serde_json::Value`. The result depends on
/// the text alone: either the text is JSON and the document has the
/// positions that `parsed_nodes` names, or it is rejected.
#[verifier::external_body]
pub(crate) fn parse_document(text: &str) -> (r: Result<serde_json::Value, serde_json::Error>)
    ensures
        match r {
            Ok(doc) => parsed_nodes(text@) == Some(document_nodes(doc)),
            Err(_) => parsed_nodes(text@).is_none(),
        },
{
    serde_json::from_str::<serde_json::Value>(text)
}

/// `serde_json::Value::pointer`. A value is returned exactly for the
/// pointers that address a position of the document, and it is the value at
/// that position.
#[verifier::external_body]
pub(crate) fn lookup<'a>(doc: &'a serde_json::Value, path: &str) -> (r: Option<
    &'a serde_json::Value,
>)
    ensures
        r.is_some() == document_nodes(*doc).contains_key(path@),
        r matches Some(value) ==> root(*value) == document_nodes(*doc)[path@],
{
    doc.pointer(path)
}

/// `serde_json::Value::as_str`: the string, if the value is one.
#[verifier::external_body]
pub(crate) fn text_of<'a>(value: &'a serde_json::Value) -> (r: Option<&'a str>)
    ensures
        match r {
            Some(s) => root(*value) == Node::Text(s@),
            None => !(root(*value) is Text),
        },
{
    value.as_str()
}

/// `serde_json::Value::as_u64`: the number, if the value is an integer that
/// fits `u64`.
#[verifier::external_body]
pub(crate) fn count_of(value: &serde_json::Value) -> (r: Option<u64>)
    ensures
        match r {
            Some(n) => root(*value) == Node::Count(n),
            None => !(root(*value) is Count),
        },
{
    value.as_u64()
}

/// `serde_json::Value::as_bool`: the boolean, if the value is one.
#[verifier::external_body]
pub(crate) fn flag_of(value: &serde_json::Value) -> (r: Option<bool>)
    ensures
        match r {
            Some(b) => root(*value) == Node::Flag(b),
            None => !(root(*value) is Flag),
        },
{
    value.as_bool()
}

/// `serde_json::Value::is_object`.
#[verifier::external_body]
pub(crate) fn object_of(value: &serde_json::Value) -> (r: bool)
    ensures
        r == (root(*value) is Object),
{
    value.is_object()
}

/// The string at a position, if the position exists and holds one.
pub open spec fn text_at(nodes: Map<Seq<char>, Node>, path: Seq<char>) -> Option<Seq<char>> {
    if nodes.contains_key(path) {
        match nodes[path] {
            Node::Text(s) => Some(s),
            _ => None,
        }
    } else {
        None
    }
}

/// The unsigned integer at a position, if the position exists and holds one.
pub open spec fn count_at(nodes: Map<Seq<char>, Node>, path: Seq<char>) -> Option<u64> {
    if nodes.contains_key(path) {
        match nodes[path] {
            Node::Count(n) => Some(n),
            _ => None,
        }
    } else {
        None
    }
}

/// The boolean at a position, if the position exists and holds one.
pub open spec fn flag_at(nodes: Map<Seq<char>, Node>, path: Seq<char>) -> Option<bool> {
    if nodes.contains_key(path) {
        match nodes[path] {
            Node::Flag(b) => Some(b),
            _ => None,
        }
    } else {
        None
    }
}

/// Whether a position exists and holds an object.
pub open spec fn object_at(nodes: Map<Seq<char>, Node>, path: Seq<char>) -> bool {
    nodes.contains_key(path) && nodes[path] is Object
}

/// Reads the string at `path`.
pub fn read_text(doc: &serde_json::Value, path: &str) -> (r: Option<String>)
    ensures
        chars_of(r) == text_at(document_nodes(*doc), path@),
{
    match lookup(doc, path) {
        Some(value) => match text_of(value) {
            Some(s) => Some(s.to_owned()),
            None => None,
        },
        None => None,
    }
}

/// Reads the unsigned integer at `path`.
pub fn read_count(doc: &serde_json::Value, path: &str) -> (r: Option<u64>)
    ensures
        r == count_at(document_nodes(*doc), path@),
{
    match lookup(doc, path) {
        Some(value) => count_of(value),
        None => None,
    }
}

/// Reads the boolean at `path`.
pub fn read_flag(doc: &serde_json::Value, path: &str) -> (r: Option<bool>)
    ensures
        r == flag_at(document_nodes(*doc), path@),
{
    match lookup(doc, path) {
        Some(value) => flag_of(value),
        None => None,
    }
}

/// Tells whether `path` addresses an object.
pub fn has_object(doc: &serde_json::Value, path: &str) -> (r: bool)
    ensures
        r == object_at(document_nodes(*doc), path@),
{
    match lookup(doc, path) {
        Some(value) => object_of(value),
        None => false,
    }
}

} // verus!
