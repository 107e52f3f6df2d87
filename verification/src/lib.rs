//! Client-side in-memory database of security advisories.
//!
//! A serialized advisory document is decoded into validated advisory records
//! and indexed by advisory identifier and by affected package, after which
//! the database answers read-only lookups.

pub mod database;
pub mod decode;
pub mod doc;
pub mod error;
pub mod metadata;
pub mod model;
pub mod severity;

pub use database::AdvisoryDatabase;
pub use error::Error;
pub use metadata::Metadata;
