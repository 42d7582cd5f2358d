//! Resolution of artifact download requests: from a slug and a version
//! string to the stored identifiers whose artifact is served.
//!
//! The registry serves the stored package bytes whole. A download variant
//! that extracts an inner payload out of the package format is the package
//! parser's work — an external collaborator — and has no counterpart here.

use vstd::prelude::*;

use crate::ingest::mod_with_slug;
use crate::store::{Registry, VersionRow};
use crate::RegistryError;

verus! {

/// `i` is the index of the first version row of `mod_id` carrying exactly
/// this version string.
pub open spec fn first_version_match(
    versions: Seq<VersionRow>,
    mod_id: u64,
    ver: Seq<char>,
    i: int,
) -> bool {
    &&& 0 <= i < versions.len()
    &&& versions[i].mod_id == mod_id
    &&& versions[i].version@ == ver
    &&& forall|j: int|
        0 <= j < i ==> !((#[trigger] versions[j]).mod_id == mod_id && versions[j].version@ == ver)
}

/// The mod has a version row carrying exactly this version string.
pub open spec fn has_version_of(versions: Seq<VersionRow>, mod_id: u64, ver: Seq<char>) -> bool {
    exists|i: int|
        0 <= i < versions.len() && (#[trigger] versions[i]).mod_id == mod_id
            && versions[i].version@ == ver
}

/// Resolves a download request to the pair of identifiers under which the
/// artifact is stored: the mod with the slug, and its first version row
/// carrying exactly the requested version string. `NotFound` exactly when
/// either is absent.
#[verifier::loop_isolation(false)]
pub fn resolve_download(reg: &Registry, slug: &str, version: &str) -> (r: Result<
    (u64, u64),
    RegistryError,
>)
    requires
        reg.wf(),
    ensures
        match r {
            Ok((mid, vid)) => {
                &&& reg.has_slug(slug@)
                &&& mid == mod_with_slug(reg.mods@, slug@).id
                &&& exists|i: int|
                    #[trigger] first_version_match(reg.versions@, mid, version@, i)
                        && reg.versions@[i].id == vid
            },
            Err(e) => {
                &&& e == RegistryError::NotFound
                &&& !reg.has_slug(slug@) || !has_version_of(
                    reg.versions@,
                    mod_with_slug(reg.mods@, slug@).id,
                    version@,
                )
            },
        },
{
    let mi = match reg.find_mod_by_slug(slug) {
        Some(mi) => mi,
        None => {
            return Err(RegistryError::NotFound);
        },
    };
    let mid = reg.mods[mi].id;
    proof {
        assert(reg.mods@[mi as int].slug@ == slug@);
        let ci = choose|i: int|
            0 <= i < reg.mods@.len() && (#[trigger] reg.mods@[i]).slug@ == slug@;
        assert(0 <= ci < reg.mods@.len() && reg.mods@[ci].slug@ == slug@);
        if ci < mi as int {
            assert(reg.mods@[ci].slug@ != reg.mods@[mi as int].slug@);
        } else if ci > mi as int {
            assert(reg.mods@[mi as int].slug@ != reg.mods@[ci].slug@);
        }
        assert(mod_with_slug(reg.mods@, slug@) == reg.mods@[mi as int]);
    }
    let mut i: usize = 0;
    while i < reg.versions.len()
        invariant
            i <= reg.versions@.len(),
            forall|j: int|
                0 <= j < i ==> !((#[trigger] reg.versions@[j]).mod_id == mid
                    && reg.versions@[j].version@ == version@),
        decreases reg.versions@.len() - i,
    {
        if reg.versions[i].mod_id == mid
            && crate::store::str_eq(reg.versions[i].version.as_str(), version) {
            proof {
                assert(first_version_match(reg.versions@, mid, version@, i as int));
            }
            return Ok((mid, reg.versions[i].id));
        }
        i = i + 1;
    }
    Err(RegistryError::NotFound)
}

} // verus!
