//! The API view of versions: one version row joined with its supported game
//! versions and its download counter.

use vstd::prelude::*;

use crate::store::{Registry, VersionGameVersionRow, VersionRow};
use crate::RegistryError;

verus! {

/// The counters of one version.
pub struct GVersionStats {
    pub downloads: i32,
}

/// One version of a mod, as the API presents it.
pub struct GVersion {
    pub id: u64,
    pub mod_id: u64,
    pub version: String,
    pub approved: bool,
    pub download_url: String,
    pub supported_game_versions: Vec<String>,
    pub stats: GVersionStats,
    pub created_at: i64,
}

/// The join rows naming this version.
pub open spec fn vgv_pred(vid: u64) -> spec_fn(VersionGameVersionRow) -> bool {
    |r: VersionGameVersionRow| r.version_id == vid
}

/// The catalog name of the game version a join row references.
pub open spec fn supported_name_fn(reg: Registry) -> spec_fn(VersionGameVersionRow) -> Seq<char> {
    |r: VersionGameVersionRow| reg.game_version_with_id(r.game_version_id).ver@
}

/// The names of the game versions this version supports, in join-table
/// order.
pub open spec fn supported_names(reg: Registry, vid: u64) -> Seq<Seq<char>> {
    reg.version_game_versions@.filter(vgv_pred(vid)).map_values(supported_name_fn(reg))
}

/// Every game version this version's join rows reference is in the catalog.
pub open spec fn gv_refs_exist(reg: Registry, vid: u64) -> bool {
    forall|i: int|
        0 <= i < reg.version_game_versions@.len() && (#[trigger] reg.version_game_versions@[i]).version_id
            == vid ==> reg.has_game_version_id(reg.version_game_versions@[i].game_version_id)
}

/// `g` presents the version row `v`: plain fields copied, counters from the
/// stats row, supported game versions from the join table.
pub open spec fn is_version_view(reg: Registry, v: VersionRow, g: GVersion) -> bool {
    &&& g.id == v.id
    &&& g.mod_id == v.mod_id
    &&& g.version@ == v.version@
    &&& g.approved == v.approved
    &&& g.download_url@ == v.download_url@
    &&& g.created_at == v.created_at
    &&& g.stats.downloads == reg.version_stats_with_id(v.stats).downloads
    &&& g.supported_game_versions.deep_view() == supported_names(reg, v.id)
}

/// What a version row needs referenced so that its view can be assembled.
pub open spec fn version_view_ok(reg: Registry, v: VersionRow) -> bool {
    &&& reg.has_version_stats_id(v.stats)
    &&& gv_refs_exist(reg, v.id)
}

impl GVersion {
    /// Assembles the API view of one version row. Fails with `NotFound`
    /// exactly when a row the version references is absent.
    pub fn from_db_version(reg: &Registry, v: &VersionRow) -> (r: Result<GVersion, RegistryError>)
        requires
            reg.wf(),
        ensures
            match r {
                Ok(g) => version_view_ok(*reg, *v) && is_version_view(*reg, *v, g),
                Err(e) => !version_view_ok(*reg, *v) && e == RegistryError::NotFound,
            },
    {
        let ghost pred = vgv_pred(v.id);
        let ghost namef = supported_name_fn(*reg);
        let mut names: Vec<String> = Vec::new();
        let mut i: usize = 0;
        while i < reg.version_game_versions.len()
            invariant
                reg.wf(),
                i <= reg.version_game_versions@.len(),
                pred == vgv_pred(v.id),
                namef == supported_name_fn(*reg),
                names.deep_view() == reg.version_game_versions@.take(i as int).filter(
                    pred,
                ).map_values(namef),
                forall|j: int|
                    0 <= j < i && (#[trigger] reg.version_game_versions@[j]).version_id == v.id
                        ==> reg.has_game_version_id(
                        reg.version_game_versions@[j].game_version_id,
                    ),
            decreases reg.version_game_versions@.len() - i,
        {
            let ghost taken = reg.version_game_versions@.take(i as int);
            let ghost row = reg.version_game_versions@[i as int];
            proof {
                assert(reg.version_game_versions@.take(i + 1) =~= taken.push(row));
                taken.lemma_filter_push(row, pred);
                taken.filter(pred).lemma_push_map_commute(namef, row);
            }
            if reg.version_game_versions[i].version_id == v.id {
                match reg.find_game_version_by_id(reg.version_game_versions[i].game_version_id) {
                    Some(gv) => {
                        names.push(gv.ver.clone());
                        proof {
                            assert(names.deep_view() =~= taken.filter(pred).map_values(
                                namef,
                            ).push(namef(row)));
                        }
                    },
                    None => {
                        return Err(RegistryError::NotFound);
                    },
                }
            }
            i = i + 1;
        }
        proof {
            assert(reg.version_game_versions@.take(reg.version_game_versions@.len() as int)
                =~= reg.version_game_versions@);
        }
        let downloads: i32 = match reg.find_version_stats(v.stats) {
            Some(s) => s.downloads,
            None => {
                return Err(RegistryError::NotFound);
            },
        };
        Ok(
            GVersion {
                id: v.id,
                mod_id: v.mod_id,
                version: v.version.clone(),
                approved: v.approved,
                download_url: v.download_url.clone(),
                supported_game_versions: names,
                stats: GVersionStats { downloads },
                created_at: v.created_at,
            },
        )
    }
}

/// The version rows that belong to one mod, in table order.
pub open spec fn mod_versions_pred(mod_id: u64) -> spec_fn(VersionRow) -> bool {
    |v: VersionRow| v.mod_id == mod_id
}

/// The version rows of one mod.
pub open spec fn versions_of_mod(versions: Seq<VersionRow>, mod_id: u64) -> Seq<VersionRow> {
    versions.filter(mod_versions_pred(mod_id))
}

/// The views of all versions of one mod, in table order. Fails with
/// `NotFound` exactly when some version of the mod references an absent row.
pub fn find_by_mod_id(reg: &Registry, mod_id: u64) -> (r: Result<Vec<GVersion>, RegistryError>)
    requires
        reg.wf(),
    ensures
        match r {
            Ok(list) => {
                let rows = versions_of_mod(reg.versions@, mod_id);
                &&& list@.len() == rows.len()
                &&& forall|k: int|
                    0 <= k < rows.len() ==> is_version_view(*reg, rows[k], #[trigger] list@[k])
                &&& forall|k: int|
                    0 <= k < rows.len() ==> version_view_ok(*reg, #[trigger] rows[k])
            },
            Err(e) => {
                &&& e == RegistryError::NotFound
                &&& exists|k: int|
                    0 <= k < versions_of_mod(reg.versions@, mod_id).len()
                        && !version_view_ok(
                        *reg,
                        #[trigger] versions_of_mod(reg.versions@, mod_id)[k],
                    )
            },
        },
{
    broadcast use vstd::prelude::Seq::lemma_filter_contains;

    let ghost pred = mod_versions_pred(mod_id);
    let mut out: Vec<GVersion> = Vec::new();
    let mut i: usize = 0;
    while i < reg.versions.len()
        invariant
            reg.wf(),
            i <= reg.versions@.len(),
            pred == mod_versions_pred(mod_id),
            out@.len() == reg.versions@.take(i as int).filter(pred).len(),
            forall|k: int|
                0 <= k < out@.len() ==> is_version_view(
                    *reg,
                    reg.versions@.take(i as int).filter(pred)[k],
                    #[trigger] out@[k],
                ),
            forall|k: int|
                0 <= k < out@.len() ==> version_view_ok(
                    *reg,
                    #[trigger] reg.versions@.take(i as int).filter(pred)[k],
                ),
        decreases reg.versions@.len() - i,
    {
        let ghost taken = reg.versions@.take(i as int);
        let ghost row = reg.versions@[i as int];
        proof {
            assert(reg.versions@.take(i + 1) =~= taken.push(row));
            taken.lemma_filter_push(row, pred);
        }
        if reg.versions[i].mod_id == mod_id {
            match GVersion::from_db_version(reg, &reg.versions[i]) {
                Ok(g) => {
                    out.push(g);
                },
                Err(e) => {
                    proof {
                        assert(pred(row));
                        reg.versions@.lemma_filter_contains(pred, i as int);
                        assert(reg.versions@.filter(pred).contains(row));
                        let w = choose|k: int|
                            0 <= k < reg.versions@.filter(pred).len() && reg.versions@.filter(
                                pred,
                            )[k] == row;
                        assert(!version_view_ok(*reg, versions_of_mod(reg.versions@, mod_id)[w]));
                    }
                    return Err(e);
                },
            }
        }
        i = i + 1;
    }
    proof {
        assert(reg.versions@.take(reg.versions@.len() as int) =~= reg.versions@);
    }
    Ok(out)
}

} // verus!
