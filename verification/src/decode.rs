//! Trusted bridge to the outside document parsers. JSON and TOML text is
//! handed to `serde_json` and `toml` and their value trees are flattened,
//! level by level, into the library's own document tree. What each parse
//! returns is named by an uninterpreted function of the text alone; all
//! reading of the tree is done by verified code.

use vstd::prelude::*;
use crate::doc::{Doc, DocField, DocV, Inner, Leaf};

verus! {

#[verifier::external_type_specification]
#[verifier::external_body]
pub struct ExJsonValue(serde_json::Value);

#[verifier::external_type_specification]
#[verifier::external_body]
pub struct ExTomlValue(toml::Value);

/// The document tree of `s` under `serde_json`: absent when `s` is not valid
/// JSON or its root is not an object.
pub uninterp spec fn json_doc_of(s: Seq<char>) -> Option<DocV>;

/// The document tree of `s` under `toml`: absent when `s` is not a valid
/// TOML document.
pub uninterp spec fn toml_doc_of(s: Seq<char>) -> Option<DocV>;

/// Converts a `serde_json::Value` two levels below the root; only text is
/// kept.
#[verifier::external_body]
fn json_leaf(v: &serde_json::Value) -> Leaf {
    match v.as_str() {
        Some(t) => Leaf::Text(t.to_string()),
        None => Leaf::Other,
    }
}

/// Converts a `serde_json::Value` one level below the root: text, or an
/// object of leaves.
#[verifier::external_body]
fn json_inner(v: &serde_json::Value) -> Inner {
    match v {
        serde_json::Value::String(t) => Inner::Text(t.clone()),
        serde_json::Value::Object(m) => Inner::Table(
            m.iter().map(|(k, x)| (k.clone(), json_leaf(x))).collect(),
        ),
        _ => Inner::Other,
    }
}

/// Converts a root-level JSON value: text, an array, or an object.
#[verifier::external_body]
fn json_field(v: &serde_json::Value) -> DocField {
    match v {
        serde_json::Value::String(t) => DocField::Text(t.clone()),
        serde_json::Value::Array(a) => DocField::List(a.iter().map(json_inner).collect()),
        serde_json::Value::Object(m) => DocField::Table(
            m.iter().map(|(k, x)| (k.clone(), json_inner(x))).collect(),
        ),
        _ => DocField::Other,
    }
}

/// Relies on `serde_json::from_str`: the parse of a JSON text is a pure
/// function of its characters. A text whose root is an object becomes the
/// library's document tree; anything else is absent.
#[verifier::external_body]
pub fn parse_json_doc(s: &str) -> (r: Option<Doc>)
    ensures
        match r {
            Some(d) => json_doc_of(s@) == Some(d@),
            None => json_doc_of(s@) is None,
        },
{
    let v: serde_json::Value = serde_json::from_str(s).ok()?;
    match v {
        serde_json::Value::Object(m) => Some(
            Doc { fields: m.iter().map(|(k, x)| (k.clone(), json_field(x))).collect() },
        ),
        _ => None,
    }
}

/// Converts a `toml::Value` two levels below the root; only text is kept.
#[verifier::external_body]
fn toml_leaf(v: &toml::Value) -> Leaf {
    match v.as_str() {
        Some(t) => Leaf::Text(t.to_string()),
        None => Leaf::Other,
    }
}

/// Converts a `toml::Value` one level below the root: text, or a table of
/// leaves.
#[verifier::external_body]
fn toml_inner(v: &toml::Value) -> Inner {
    match v {
        toml::Value::String(t) => Inner::Text(t.clone()),
        toml::Value::Table(m) => Inner::Table(
            m.iter().map(|(k, x)| (k.clone(), toml_leaf(x))).collect(),
        ),
        _ => Inner::Other,
    }
}

/// Converts a root-level `toml::Value`: text, an array, or a table.
#[verifier::external_body]
fn toml_field(v: &toml::Value) -> DocField {
    match v {
        toml::Value::String(t) => DocField::Text(t.clone()),
        toml::Value::Array(a) => DocField::List(a.iter().map(toml_inner).collect()),
        toml::Value::Table(m) => DocField::Table(
            m.iter().map(|(k, x)| (k.clone(), toml_inner(x))).collect(),
        ),
        _ => DocField::Other,
    }
}

/// Relies on `toml::from_str`: the parse of a TOML text is a pure function
/// of its characters. A valid document's root table becomes the library's
/// document tree.
#[verifier::external_body]
pub fn parse_toml_doc(s: &str) -> (r: Option<Doc>)
    ensures
        match r {
            Some(d) => toml_doc_of(s@) == Some(d@),
            None => toml_doc_of(s@) is None,
        },
{
    let t: toml::Table = toml::from_str(s).ok()?;
    Some(Doc { fields: t.iter().map(|(k, x)| (k.clone(), toml_field(x))).collect() })
}

} // verus!
