//! The error taxonomy of the advisory database.

use vstd::prelude::*;

verus! {

/// The field of an advisory entry that a decode failure concerns.
#[derive(Clone, Copy, Debug, PartialEq, Eq, Structural)]
pub enum Field {
    Id,
    Package,
    Title,
    Description,
    Date,
    Aliases,
    References,
    Collection,
    Categories,
    Keywords,
    Cvss,
    Informational,
    Obsolete,
    Url,
    PatchedVersions,
    UnaffectedVersions,
}

/// Why a single field was refused during entry decoding.
#[derive(Clone, Copy, Debug, PartialEq, Eq, Structural)]
pub enum Reason {
    /// A required field is absent from the entry.
    Missing,
    /// The field is present but its value has the wrong shape.
    Malformed,
    /// The entry repeats an advisory identifier already seen in the document.
    Duplicate,
}

/// Everything that can go wrong between fetching an advisory document and
/// handing back a fully built database.  All variants propagate to the
/// caller unchanged: a build either yields a complete database or no
/// database at all.
#[derive(Clone, Copy, Debug, PartialEq, Eq, Structural)]
pub enum Error {
    /// The retrieval step did not complete (request error or non-success
    /// response status).  Only raised by callers that perform retrieval.
    Transport,
    /// The retrieved bytes could not be read fully or decoded as text.
    ResponseUnreadable,
    /// The document is not well-formed, or its advisory-entry collection is
    /// absent or not array-shaped.
    StructureInvalid,
    /// One advisory entry failed required-field presence or format
    /// validation; the document position, the field and the reason are kept.
    EntryInvalid { index: usize, field: Field, reason: Reason },
}

} // verus!
