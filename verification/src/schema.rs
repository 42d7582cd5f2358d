//! The query root of the API: each method answers one query, with the page
//! limit enforced at the boundary.

use vstd::prelude::*;

use crate::mods::{mod_view_post, mods_listing_post, Mod};
use crate::store::Registry;
use crate::users::{user_view_post, users_listing_post, User};
use crate::RegistryError;

verus! {

/// A category, as the API lists it.
pub struct GCategory {
    pub name: String,
    pub description: String,
}

/// The largest page a listing query may ask for.
pub const MAX_PAGE_LIMIT: usize = 10;

/// The page size used when a query names none.
pub const DEFAULT_PAGE_LIMIT: usize = 10;

/// The root of the query API.
pub struct QueryRoot;

impl QueryRoot {
    /// One user by id, as this viewer may see them.
    pub fn user_by_id(reg: &Registry, id: u64, viewer: Option<u64>) -> (r: Result<
        User,
        RegistryError,
    >)
        requires
            reg.wf(),
        ensures
            user_view_post(*reg, id, viewer, r),
    {
        crate::users::find_by_id(reg, id, viewer)
    }

    /// A page of users, as this viewer may see them. A limit over the
    /// maximum is a validation error.
    pub fn users(
        reg: &Registry,
        limit: Option<usize>,
        offset: Option<usize>,
        viewer: Option<u64>,
    ) -> (r: Result<Vec<User>, RegistryError>)
        requires
            reg.wf(),
        ensures
            (limit matches Some(l) && l > MAX_PAGE_LIMIT) ==> r == Err::<
                Vec<User>,
                RegistryError,
            >(RegistryError::Validation),
            !(limit matches Some(l) && l > MAX_PAGE_LIMIT) ==> users_listing_post(
                *reg,
                (match limit {
                    Some(l) => l,
                    None => DEFAULT_PAGE_LIMIT,
                }) as int,
                (match offset {
                    Some(o) => o,
                    None => 0,
                }) as int,
                viewer,
                r,
            ),
    {
        let l: usize = match limit {
            Some(l) => {
                if l > MAX_PAGE_LIMIT {
                    return Err(RegistryError::Validation);
                }
                l
            },
            None => DEFAULT_PAGE_LIMIT,
        };
        let o: usize = match offset {
            Some(o) => o,
            None => 0,
        };
        crate::users::find_all(reg, l, o, viewer)
    }

    /// A page of mods, or every mod supporting a given game version. A
    /// limit over the maximum is a validation error.
    pub fn mods(
        reg: &Registry,
        limit: Option<usize>,
        offset: Option<usize>,
        version: Option<String>,
    ) -> (r: Result<Vec<Mod>, RegistryError>)
        requires
            reg.wf(),
        ensures
            (limit matches Some(l) && l > MAX_PAGE_LIMIT) ==> r == Err::<
                Vec<Mod>,
                RegistryError,
            >(RegistryError::Validation),
            !(limit matches Some(l) && l > MAX_PAGE_LIMIT) ==> mods_listing_post(
                *reg,
                (match limit {
                    Some(l) => l,
                    None => DEFAULT_PAGE_LIMIT,
                }) as int,
                (match offset {
                    Some(o) => o,
                    None => 0,
                }) as int,
                version,
                r,
            ),
    {
        let l: usize = match limit {
            Some(l) => {
                if l > MAX_PAGE_LIMIT {
                    return Err(RegistryError::Validation);
                }
                l
            },
            None => DEFAULT_PAGE_LIMIT,
        };
        let o: usize = match offset {
            Some(o) => o,
            None => 0,
        };
        crate::mods::find_all(reg, l, o, version)
    }

    /// One mod by id.
    pub fn mod_by_id(reg: &Registry, id: u64) -> (r: Result<Mod, RegistryError>)
        requires
            reg.wf(),
        ensures
            mod_view_post(*reg, id, r),
    {
        crate::mods::find_by_id(reg, id)
    }

    /// Every mod of one author.
    pub fn mod_by_author(reg: &Registry, id: u64) -> (r: Result<Vec<Mod>, RegistryError>)
        requires
            reg.wf(),
        ensures
            crate::mods::author_mods_post(*reg, id, r),
    {
        crate::mods::find_by_author(reg, id)
    }

    /// Every category, in seeding order.
    pub fn categories(reg: &Registry) -> (r: Vec<GCategory>)
        ensures
            r@.len() == reg.categories@.len(),
            forall|k: int|
                0 <= k < r@.len() ==> (#[trigger] r@[k]).name@ == reg.categories@[k].name@
                    && r@[k].description@ == reg.categories@[k].description@,
    {
        let mut out: Vec<GCategory> = Vec::new();
        let mut i: usize = 0;
        while i < reg.categories.len()
            invariant
                i <= reg.categories@.len(),
                out@.len() == i,
                forall|k: int|
                    0 <= k < i ==> (#[trigger] out@[k]).name@ == reg.categories@[k].name@
                        && out@[k].description@ == reg.categories@[k].description@,
            decreases reg.categories@.len() - i,
        {
            out.push(
                GCategory {
                    name: reg.categories[i].name.clone(),
                    description: reg.categories[i].description.clone(),
                },
            );
            i = i + 1;
        }
        out
    }

    /// Every known game version string, in catalog order.
    pub fn beat_saber_versions(reg: &Registry) -> (r: Vec<String>)
        ensures
            r@.len() == reg.game_versions@.len(),
            forall|k: int| 0 <= k < r@.len() ==> (#[trigger] r@[k])@ == reg.game_versions@[k].ver@,
    {
        let mut out: Vec<String> = Vec::new();
        let mut i: usize = 0;
        while i < reg.game_versions.len()
            invariant
                i <= reg.game_versions@.len(),
                out@.len() == i,
                forall|k: int| 0 <= k < i ==> (#[trigger] out@[k])@ == reg.game_versions@[k].ver@,
            decreases reg.game_versions@.len() - i,
        {
            out.push(reg.game_versions[i].ver.clone());
            i = i + 1;
        }
        out
    }
}

} // verus!
