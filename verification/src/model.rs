//! The mathematical model of a parsed structured document.
//!
//! A parsed document is a tree of strings, booleans, arrays and tables.
//! [`ValModel`] is the spec-level shape of one node of that tree; the
//! contracts of the trusted parsing layer and of the decoder are stated
//! over it.

use vstd::prelude::*;

verus! {

/// Spec-level model of one node of a parsed document's value tree.
/// Node kinds that the advisory schema never uses (numbers, dates)
/// are collapsed into `Other`.
pub enum ValModel {
    Text(Seq<char>),
    Flag(bool),
    List(Seq<ValModel>),
    Table(Seq<(Seq<char>, ValModel)>),
    Other,
}

/// The value bound to `key` in a table, searching front to back.
pub open spec fn tbl_get(pairs: Seq<(Seq<char>, ValModel)>, key: Seq<char>) -> Option<ValModel>
    decreases pairs.len(),
{
    if pairs.len() == 0 {
        None
    } else if pairs.first().0 == key {
        Some(pairs.first().1)
    } else {
        tbl_get(pairs.drop_first(), key)
    }
}

/// The field named `key` of an entry: `None` unless the entry is a table
/// that binds the key.
pub open spec fn field_of(v: ValModel, key: Seq<char>) -> Option<ValModel> {
    match v {
        ValModel::Table(pairs) => tbl_get(pairs, key),
        _ => None,
    }
}

} // verus!
