//! The denormalized document the search index receives after an upload
//! commits. Building it is pure assembly over the committed state; sending
//! it to the index is an external, best-effort step.

use vstd::prelude::*;

use crate::store::{ModVersionRow, Registry, UserRow, ModGameVersionRow};
use crate::RegistryError;

verus! {

/// The author part of a search document.
pub struct SearchUser {
    pub username: String,
    pub display_name: String,
}

/// The counters part of a search document.
pub struct SearchModStats {
    pub downloads: u64,
}

/// One version entry of a search document.
pub struct SearchVersion {
    pub version: String,
}

/// The denormalized document the search index holds for one mod, keyed by
/// the mod's id.
pub struct SearchDoc {
    pub id: u64,
    pub name: String,
    pub description: String,
    pub category: String,
    pub author: SearchUser,
    pub stats: SearchModStats,
    pub versions: Vec<SearchVersion>,
    pub supported_versions: Vec<String>,
}

/// The membership rows of one mod.
pub open spec fn mv_pred(mid: u64) -> spec_fn(ModVersionRow) -> bool {
    |r: ModVersionRow| r.mod_id == mid
}

/// The version strings of one mod's membership rows, in join-table order.
pub open spec fn member_version_strings(reg: Registry, mid: u64) -> Seq<Seq<char>> {
    reg.mod_versions@.filter(mv_pred(mid)).map_values(
        |r: ModVersionRow| reg.version_with_id(r.version_id).version@,
    )
}

/// Every version a membership row references exists.
pub open spec fn member_refs_exist(reg: Registry, mid: u64) -> bool {
    forall|i: int|
        0 <= i < reg.mod_versions@.len() && (#[trigger] reg.mod_versions@[i]).mod_id == mid
            ==> reg.has_version_id(reg.mod_versions@[i].version_id)
}

/// The support rows of one mod.
pub open spec fn mgv_mod_pred(mid: u64) -> spec_fn(ModGameVersionRow) -> bool {
    |r: ModGameVersionRow| r.mod_id == mid
}

/// The game-version strings one mod supports, in join-table order.
pub open spec fn supported_version_strings(reg: Registry, mid: u64) -> Seq<Seq<char>> {
    reg.mod_game_versions@.filter(mgv_mod_pred(mid)).map_values(
        |r: ModGameVersionRow| reg.game_version_with_id(r.game_version_id).ver@,
    )
}

/// Every game version a support row references is in the catalog.
pub open spec fn support_refs_exist(reg: Registry, mid: u64) -> bool {
    forall|i: int|
        0 <= i < reg.mod_game_versions@.len() && (#[trigger] reg.mod_game_versions@[i]).mod_id
            == mid ==> reg.has_game_version_id(reg.mod_game_versions@[i].game_version_id)
}

/// What the search document of a mod must hold, given the category name the
/// upload resolved and the uploading user: the mod's fields, the author's
/// names with the username standing in for a missing display name, the
/// download counter, and the mod's version and supported-game-version
/// strings.
pub open spec fn is_search_doc(
    reg: Registry,
    mid: u64,
    category_name: Seq<char>,
    uploader: UserRow,
    d: SearchDoc,
) -> bool {
    let md = reg.mod_with_id(mid);
    &&& d.id == mid
    &&& d.name@ == md.name@
    &&& d.description@ == (match md.description {
        Some(s) => s@,
        None => Seq::<char>::empty(),
    })
    &&& d.category@ == category_name
    &&& d.author.username@ == uploader.username@
    &&& d.author.display_name@ == (match uploader.display_name {
        Some(n) => n@,
        None => uploader.username@,
    })
    &&& d.stats.downloads == reg.mod_stats_with_id(md.stats).downloads as u64
    &&& d.versions@.len() == member_version_strings(reg, mid).len()
    &&& forall|k: int|
        0 <= k < d.versions@.len() ==> (#[trigger] d.versions@[k]).version@
            == member_version_strings(reg, mid)[k]
    &&& d.supported_versions.deep_view() == supported_version_strings(reg, mid)
}

/// Builds the search document of one mod after an upload: `NotFound`
/// exactly when the mod, its stats row, or a row its associations reference
/// is absent.
#[verifier::loop_isolation(false)]
pub fn build_search_doc(
    reg: &Registry,
    mid: u64,
    category_name: &str,
    uploader: &UserRow,
) -> (r: Result<SearchDoc, RegistryError>)
    requires
        reg.wf(),
    ensures
        match r {
            Ok(d) => {
                &&& reg.has_mod_id(mid)
                &&& reg.has_mod_stats_id(reg.mod_with_id(mid).stats)
                &&& member_refs_exist(*reg, mid)
                &&& support_refs_exist(*reg, mid)
                &&& is_search_doc(*reg, mid, category_name@, *uploader, d)
            },
            Err(e) => {
                &&& e == RegistryError::NotFound
                &&& !reg.has_mod_id(mid) || !reg.has_mod_stats_id(reg.mod_with_id(mid).stats)
                    || !member_refs_exist(*reg, mid) || !support_refs_exist(*reg, mid)
            },
        },
{
    let md = match reg.find_mod_by_id(mid) {
        Some(m) => m,
        None => {
            return Err(RegistryError::NotFound);
        },
    };
    let stats = match reg.find_mod_stats(md.stats) {
        Some(s) => s,
        None => {
            return Err(RegistryError::NotFound);
        },
    };
    let ghost mvp = mv_pred(mid);
    let ghost mvf = |r: ModVersionRow| reg.version_with_id(r.version_id).version@;
    let mut versions: Vec<SearchVersion> = Vec::new();
    let mut i: usize = 0;
    while i < reg.mod_versions.len()
        invariant
            i <= reg.mod_versions@.len(),
            versions@.len() == reg.mod_versions@.take(i as int).filter(mvp).len(),
            forall|k: int|
                0 <= k < versions@.len() ==> (#[trigger] versions@[k]).version@
                    == reg.mod_versions@.take(i as int).filter(mvp).map_values(mvf)[k],
            forall|j: int|
                0 <= j < i && (#[trigger] reg.mod_versions@[j]).mod_id == mid
                    ==> reg.has_version_id(reg.mod_versions@[j].version_id),
        decreases reg.mod_versions@.len() - i,
    {
        let ghost taken = reg.mod_versions@.take(i as int);
        let ghost row = reg.mod_versions@[i as int];
        proof {
            assert(reg.mod_versions@.take(i + 1) =~= taken.push(row));
            taken.lemma_filter_push(row, mvp);
            taken.filter(mvp).lemma_push_map_commute(mvf, row);
        }
        if reg.mod_versions[i].mod_id == mid {
            match reg.find_version_by_id(reg.mod_versions[i].version_id) {
                Some(v) => {
                    versions.push(SearchVersion { version: v.version.clone() });
                },
                None => {
                    return Err(RegistryError::NotFound);
                },
            }
        }
        i = i + 1;
    }
    proof {
        assert(reg.mod_versions@.take(reg.mod_versions@.len() as int) =~= reg.mod_versions@);
    }

    let ghost sgp = mgv_mod_pred(mid);
    let ghost sgf = |r: ModGameVersionRow| reg.game_version_with_id(r.game_version_id).ver@;
    let mut supported: Vec<String> = Vec::new();
    let mut j: usize = 0;
    while j < reg.mod_game_versions.len()
        invariant
            j <= reg.mod_game_versions@.len(),
            supported.deep_view() == reg.mod_game_versions@.take(j as int).filter(sgp).map_values(
                sgf,
            ),
            forall|k: int|
                0 <= k < j && (#[trigger] reg.mod_game_versions@[k]).mod_id == mid
                    ==> reg.has_game_version_id(reg.mod_game_versions@[k].game_version_id),
        decreases reg.mod_game_versions@.len() - j,
    {
        let ghost taken = reg.mod_game_versions@.take(j as int);
        let ghost row = reg.mod_game_versions@[j as int];
        proof {
            assert(reg.mod_game_versions@.take(j + 1) =~= taken.push(row));
            taken.lemma_filter_push(row, sgp);
            taken.filter(sgp).lemma_push_map_commute(sgf, row);
        }
        if reg.mod_game_versions[j].mod_id == mid {
            match reg.find_game_version_by_id(reg.mod_game_versions[j].game_version_id) {
                Some(gv) => {
                    supported.push(gv.ver.clone());
                    proof {
                        assert(supported.deep_view() =~= taken.filter(sgp).map_values(sgf).push(
                            sgf(row),
                        ));
                    }
                },
                None => {
                    return Err(RegistryError::NotFound);
                },
            }
        }
        j = j + 1;
    }
    proof {
        assert(reg.mod_game_versions@.take(reg.mod_game_versions@.len() as int)
            =~= reg.mod_game_versions@);
    }

    let description: String = match &md.description {
        Some(s) => s.clone(),
        None => String::new(),
    };
    let display_name: String = match &uploader.display_name {
        Some(n) => n.clone(),
        None => uploader.username.clone(),
    };
    Ok(
        SearchDoc {
            id: mid,
            name: md.name.clone(),
            description,
            category: category_name.to_owned(),
            author: SearchUser { username: uploader.username.clone(), display_name },
            stats: SearchModStats { downloads: stats.downloads as u64 },
            versions,
            supported_versions: supported,
        },
    )
}

} // verus!
