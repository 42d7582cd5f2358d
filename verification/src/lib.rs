//! The core of a mod registry backend: a relational model of mods,
//! versions, categories and game versions (`store`), the ingestion
//! transaction that uploads a package into that model (`ingest`), the
//! queries and views over it (`mods`, `versions`, `users`, `schema`,
//! `cdn`), capability checking and credentials (`auth`), the document fed
//! to the search index (`search`), and the seeded vocabulary (`seed`).
//! Version requirements are evaluated by the `semver` crate behind the
//! boundary in `semver_ext`.

use vstd::prelude::*;

pub mod auth;
pub mod cdn;
pub mod ingest;
pub mod mods;
pub mod search;
pub mod seed;
pub mod schema;
pub mod semver_ext;
pub mod store;
pub mod users;
pub mod versions;

verus! {

/// The error taxonomy of the registry.
///
/// - `Unauthorized`: the caller lacks a required capability.
/// - `Validation`: the manifest is malformed or targets no known game version.
/// - `NotFound`: a referenced mod, version or category is absent when required.
/// - `Conflict`: a uniqueness conflict was detected.
/// - `Internal`: a storage-level failure; the transaction is rolled back.
#[derive(Clone, Copy, Debug, PartialEq, Eq, Structural)]
pub enum RegistryError {
    Unauthorized,
    Validation,
    NotFound,
    Conflict,
    Internal,
}

} // verus!
