//! Trusted boundary to the outside CVSS vector parser.
//!
//! The database stores a severity vector verbatim and only validates its
//! syntax; the scoring math belongs to the `cvss` crate.

use vstd::prelude::*;

verus! {

/// Whether a string is a syntactically valid CVSS v3 vector; decided by the
/// outside parser, a function of the string alone.
pub uninterp spec fn cvss_ok(s: Seq<char>) -> bool;

/// Relies on `<cvss::v3::Vector as core::str::FromStr>::from_str`: whether
/// it accepts a vector string depends on the string alone; acceptance is
/// named by [`cvss_ok`].
#[verifier::external_body]
pub fn cvss_valid(s: &str) -> (r: bool)
    ensures
        r == cvss_ok(s@),
{
    match s.parse::<cvss::v3::Vector>() {
        Ok(_) => true,
        Err(_) => false,
    }
}

} // verus!
