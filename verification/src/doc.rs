//! Trusted boundary to the outside TOML parser.
//!
//! The document text is parsed by the `toml` crate; the parsed tree is kept
//! as an opaque [`toml::Value`] and read through the small wrappers below.
//! Each wrapper's contract is stated over [`toml_model`], the spec-level
//! contents of a parsed node.

use crate::model::{field_of, ValModel};
use vstd::prelude::*;

verus! {

#[verifier::external_type_specification]
#[verifier::external_body]
pub struct ExTomlValue(toml::Value);

/// The contents of one parsed TOML node, as a spec-level value tree.
pub uninterp spec fn toml_model(v: toml::Value) -> ValModel;

/// What the TOML parser yields on a given text: `None` when the text is not
/// a well-formed document, else the model of the parsed root table.
pub uninterp spec fn doc_of(text: Seq<char>) -> Option<ValModel>;

/// Relies on `<toml::Table as core::str::FromStr>::from_str`, the
/// document parser: parsing is deterministic, a function of the text
/// alone; its result is named by [`doc_of`].  The parsed root table is
/// handed back wrapped as a node.
#[verifier::external_body]
pub fn parse_toml(text: &str) -> (r: Option<toml::Value>)
    ensures
        (r is Some) == (doc_of(text@) is Some),
        r matches Some(v) ==> Some(toml_model(v)) == doc_of(text@),
{
    match text.parse::<toml::Table>() {
        Ok(t) => Some(toml::Value::Table(t)),
        Err(_) => None,
    }
}

/// Relies on `toml::Value::as_str`: `Some` exactly on the `String` variant,
/// handing out the held string.
#[verifier::external_body]
pub fn tv_as_str<'a>(v: &'a toml::Value) -> (r: Option<&'a str>)
    ensures
        (r is Some) == (toml_model(*v) is Text),
        r matches Some(s) ==> toml_model(*v) == ValModel::Text(s@),
{
    v.as_str()
}

/// Relies on `toml::Value::as_bool`: `Some` exactly on the `Boolean`
/// variant, handing out the held boolean.
#[verifier::external_body]
pub fn tv_as_bool(v: &toml::Value) -> (r: Option<bool>)
    ensures
        (r is Some) == (toml_model(*v) is Flag),
        r matches Some(b) ==> toml_model(*v) == ValModel::Flag(b),
{
    v.as_bool()
}

/// Relies on `toml::Value::as_array`: `Some` exactly on the `Array`
/// variant, handing out the held nodes in document order.
#[verifier::external_body]
pub fn tv_as_array<'a>(v: &'a toml::Value) -> (r: Option<&'a Vec<toml::Value>>)
    ensures
        (r is Some) == (toml_model(*v) is List),
        r matches Some(items) ==> toml_model(*v) == ValModel::List(
            items@.map_values(|x: toml::Value| toml_model(x)),
        ),
{
    v.as_array()
}

/// Relies on `toml::Value::get` with a string index: on a `Table` it looks
/// the key up (table keys are unique), on every other variant it returns
/// `None`.
#[verifier::external_body]
pub fn tv_get<'a>(v: &'a toml::Value, key: &str) -> (r: Option<&'a toml::Value>)
    ensures
        (r is Some) == (field_of(toml_model(*v), key@) is Some),
        r matches Some(x) ==> Some(toml_model(*x)) == field_of(toml_model(*v), key@),
{
    v.get(key)
}

} // verus!
