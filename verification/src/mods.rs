//! The API view of mods: a mod row joined with its author, category, stats
//! and versions, and the queries over it.

use vstd::prelude::*;

use crate::store::{CategoryRow, ModGameVersionRow, ModRow, Registry, UserRow};
use crate::versions::{
    find_by_mod_id, is_version_view, version_view_ok, versions_of_mod, GVersion,
};
use crate::RegistryError;

verus! {

/// The counters of one mod.
pub struct GModStats {
    pub downloads: i32,
}

/// The category of a mod, as the API presents it.
pub struct ModCategory {
    pub name: String,
    pub desc: String,
}

/// The author of a mod, as the API presents it.
pub struct ModAuthor {
    pub id: u64,
    pub username: String,
    pub display_name: Option<String>,
    pub bio: Option<String>,
    pub permissions: i32,
    pub avatar: Option<String>,
    pub banner: Option<String>,
    pub created_at: i64,
    pub updated_at: i64,
}

/// One mod, as the API presents it.
pub struct Mod {
    pub id: u64,
    pub slug: String,
    pub name: String,
    pub description: Option<String>,
    pub icon: Option<String>,
    pub cover: Option<String>,
    pub author: ModAuthor,
    pub category: ModCategory,
    pub stats: GModStats,
    pub versions: Vec<GVersion>,
    pub updated_at: i64,
    pub created_at: i64,
}

/// The author view a user row yields.
pub open spec fn author_view_of(u: UserRow) -> ModAuthor {
    ModAuthor {
        id: u.id,
        username: u.username,
        display_name: u.display_name,
        bio: u.bio,
        permissions: u.permissions,
        avatar: u.avatar,
        banner: u.banner,
        created_at: u.created_at,
        updated_at: u.updated_at,
    }
}

/// The category view a category row yields.
pub open spec fn category_view_of(c: CategoryRow) -> ModCategory {
    ModCategory { name: c.name, desc: c.description }
}

/// `m` presents the mod row `md`: plain fields copied, author, category and
/// counters resolved by id, versions in table order.
pub open spec fn is_mod_view(reg: Registry, md: ModRow, m: Mod) -> bool {
    &&& m.id == md.id
    &&& m.slug@ == md.slug@
    &&& m.name@ == md.name@
    &&& m.description == md.description
    &&& m.icon == md.icon
    &&& m.cover == md.cover
    &&& m.author == author_view_of(reg.user_with_id(md.author))
    &&& m.category == category_view_of(reg.category_with_id(md.category))
    &&& m.stats.downloads == reg.mod_stats_with_id(md.stats).downloads
    &&& m.versions@.len() == versions_of_mod(reg.versions@, md.id).len()
    &&& forall|k: int|
        0 <= k < m.versions@.len() ==> is_version_view(
            reg,
            versions_of_mod(reg.versions@, md.id)[k],
            #[trigger] m.versions@[k],
        )
    &&& m.created_at == md.created_at
    &&& m.updated_at == md.updated_at
}

/// What a mod row needs referenced so that its view can be assembled.
pub open spec fn mod_view_ok(reg: Registry, md: ModRow) -> bool {
    &&& reg.has_category_id(md.category)
    &&& reg.has_mod_stats_id(md.stats)
    &&& reg.has_user(md.author)
    &&& forall|k: int|
        0 <= k < versions_of_mod(reg.versions@, md.id).len() ==> version_view_ok(
            reg,
            #[trigger] versions_of_mod(reg.versions@, md.id)[k],
        )
}

impl Mod {
    /// Assembles the API view of one mod row. Fails with `NotFound` exactly
    /// when a row the mod references is absent.
    pub fn from_db_mod(reg: &Registry, md: &ModRow) -> (r: Result<Mod, RegistryError>)
        requires
            reg.wf(),
        ensures
            match r {
                Ok(m) => mod_view_ok(*reg, *md) && is_mod_view(*reg, *md, m),
                Err(e) => !mod_view_ok(*reg, *md) && e == RegistryError::NotFound,
            },
    {
        let category = match reg.find_category_by_id(md.category) {
            Some(c) => ModCategory { name: c.name.clone(), desc: c.description.clone() },
            None => {
                return Err(RegistryError::NotFound);
            },
        };
        let stats = match reg.find_mod_stats(md.stats) {
            Some(s) => GModStats { downloads: s.downloads },
            None => {
                return Err(RegistryError::NotFound);
            },
        };
        let author = match reg.find_user_by_id(md.author) {
            Some(u) => ModAuthor {
                id: u.id,
                username: u.username.clone(),
                display_name: crate::store::duplicate_opt_string(&u.display_name),
                bio: crate::store::duplicate_opt_string(&u.bio),
                permissions: u.permissions,
                avatar: crate::store::duplicate_opt_string(&u.avatar),
                banner: crate::store::duplicate_opt_string(&u.banner),
                created_at: u.created_at,
                updated_at: u.updated_at,
            },
            None => {
                return Err(RegistryError::NotFound);
            },
        };
        let versions = match find_by_mod_id(reg, md.id) {
            Ok(v) => v,
            Err(e) => {
                return Err(e);
            },
        };
        Ok(
            Mod {
                id: md.id,
                slug: md.slug.clone(),
                name: md.name.clone(),
                description: crate::store::duplicate_opt_string(&md.description),
                icon: crate::store::duplicate_opt_string(&md.icon),
                cover: crate::store::duplicate_opt_string(&md.cover),
                author,
                category,
                stats,
                versions,
                updated_at: md.updated_at,
                created_at: md.created_at,
            },
        )
    }
}

/// What the lookup of one mod view returns: the row's view, or `NotFound`
/// exactly when no row carries the id or its view cannot be assembled.
pub open spec fn mod_view_post(reg: Registry, id: u64, r: Result<Mod, RegistryError>) -> bool {
    match r {
        Ok(m) => {
            &&& reg.has_mod_id(id)
            &&& mod_view_ok(reg, reg.mod_with_id(id))
            &&& is_mod_view(reg, reg.mod_with_id(id), m)
        },
        Err(e) => {
            &&& e == RegistryError::NotFound
            &&& !reg.has_mod_id(id) || !mod_view_ok(reg, reg.mod_with_id(id))
        },
    }
}

/// One mod view by id. `NotFound` exactly when no mod carries the id or its
/// view cannot be assembled.
pub fn find_by_id(reg: &Registry, id: u64) -> (r: Result<Mod, RegistryError>)
    requires
        reg.wf(),
    ensures
        mod_view_post(*reg, id, r),
{
    match reg.find_mod_by_id(id) {
        Some(md) => Mod::from_db_mod(reg, md),
        None => Err(RegistryError::NotFound),
    }
}

/// One mod view by slug. `NotFound` exactly when no mod carries the slug or
/// its view cannot be assembled.
pub fn find_by_slug(reg: &Registry, slug: &str) -> (r: Result<Mod, RegistryError>)
    requires
        reg.wf(),
    ensures
        match r {
            Ok(m) => {
                &&& reg.has_slug(slug@)
                &&& mod_view_ok(*reg, crate::ingest::mod_with_slug(reg.mods@, slug@))
                &&& is_mod_view(*reg, crate::ingest::mod_with_slug(reg.mods@, slug@), m)
            },
            Err(e) => {
                &&& e == RegistryError::NotFound
                &&& !reg.has_slug(slug@) || !mod_view_ok(
                    *reg,
                    crate::ingest::mod_with_slug(reg.mods@, slug@),
                )
            },
        },
{
    match reg.find_mod_by_slug(slug) {
        Some(mi) => {
            proof {
                assert(reg.mods@[mi as int].slug@ == slug@);
                let ci = choose|i: int|
                    0 <= i < reg.mods@.len() && (#[trigger] reg.mods@[i]).slug@ == slug@;
                assert(0 <= ci < reg.mods@.len() && reg.mods@[ci].slug@ == slug@);
                if ci < mi as int {
                    assert(reg.mods@[ci].slug@ != reg.mods@[mi as int].slug@);
                } else if ci > mi as int {
                    assert(reg.mods@[mi as int].slug@ != reg.mods@[ci].slug@);
                }
                assert(crate::ingest::mod_with_slug(reg.mods@, slug@) == reg.mods@[mi as int]);
            }
            Mod::from_db_mod(reg, &reg.mods[mi])
        },
        None => Err(RegistryError::NotFound),
    }
}

/// The mod rows owned by one author, in table order.
pub open spec fn author_pred(author: u64) -> spec_fn(ModRow) -> bool {
    |md: ModRow| md.author == author
}

/// The mod rows of one author.
pub open spec fn mods_of_author(mods: Seq<ModRow>, author: u64) -> Seq<ModRow> {
    mods.filter(author_pred(author))
}

/// What the listing of one author's mods returns: every one of their mods'
/// views in table order, or `NotFound` exactly when some of those views
/// cannot be assembled.
pub open spec fn author_mods_post(
    reg: Registry,
    author: u64,
    r: Result<Vec<Mod>, RegistryError>,
) -> bool {
    match r {
        Ok(list) => {
            let rows = mods_of_author(reg.mods@, author);
            &&& list@.len() == rows.len()
            &&& forall|k: int|
                0 <= k < rows.len() ==> is_mod_view(reg, rows[k], #[trigger] list@[k])
            &&& forall|k: int| 0 <= k < rows.len() ==> mod_view_ok(reg, #[trigger] rows[k])
        },
        Err(e) => {
            &&& e == RegistryError::NotFound
            &&& exists|k: int|
                0 <= k < mods_of_author(reg.mods@, author).len() && !mod_view_ok(
                    reg,
                    #[trigger] mods_of_author(reg.mods@, author)[k],
                )
        },
    }
}

/// The views of all mods of one author, in table order. `NotFound` exactly
/// when some of those views cannot be assembled.
pub fn find_by_author(reg: &Registry, author: u64) -> (r: Result<Vec<Mod>, RegistryError>)
    requires
        reg.wf(),
    ensures
        author_mods_post(*reg, author, r),
{
    let ghost pred = author_pred(author);
    let mut out: Vec<Mod> = Vec::new();
    let mut i: usize = 0;
    while i < reg.mods.len()
        invariant
            reg.wf(),
            i <= reg.mods@.len(),
            pred == author_pred(author),
            out@.len() == reg.mods@.take(i as int).filter(pred).len(),
            forall|k: int|
                0 <= k < out@.len() ==> is_mod_view(
                    *reg,
                    reg.mods@.take(i as int).filter(pred)[k],
                    #[trigger] out@[k],
                ),
            forall|k: int|
                0 <= k < out@.len() ==> mod_view_ok(
                    *reg,
                    #[trigger] reg.mods@.take(i as int).filter(pred)[k],
                ),
        decreases reg.mods@.len() - i,
    {
        let ghost taken = reg.mods@.take(i as int);
        let ghost row = reg.mods@[i as int];
        proof {
            assert(reg.mods@.take(i + 1) =~= taken.push(row));
            taken.lemma_filter_push(row, pred);
        }
        if reg.mods[i].author == author {
            match Mod::from_db_mod(reg, &reg.mods[i]) {
                Ok(m) => {
                    out.push(m);
                },
                Err(e) => {
                    proof {
                        assert(pred(row));
                        reg.mods@.lemma_filter_contains(pred, i as int);
                        assert(reg.mods@.filter(pred).contains(row));
                        let w = choose|k: int|
                            0 <= k < reg.mods@.filter(pred).len() && reg.mods@.filter(pred)[k]
                                == row;
                        assert(!mod_view_ok(*reg, mods_of_author(reg.mods@, author)[w]));
                    }
                    return Err(e);
                },
            }
        }
        i = i + 1;
    }
    proof {
        assert(reg.mods@.take(reg.mods@.len() as int) =~= reg.mods@);
    }
    Ok(out)
}

/// The window of the mod table an unfiltered listing returns: `limit` rows
/// starting at `offset`, clipped to the table.
pub open spec fn page_of(mods: Seq<ModRow>, offset: int, limit: int) -> Seq<ModRow> {
    let start = if offset > mods.len() {
        mods.len() as int
    } else {
        offset
    };
    let avail = mods.len() - start;
    let take = if limit > avail {
        avail
    } else {
        limit
    };
    mods.subrange(start, start + take)
}

/// `i` is the index of the first catalog row carrying this version string.
pub open spec fn first_gv_match(
    gvs: Seq<crate::store::GameVersionRow>,
    ver: Seq<char>,
    i: int,
) -> bool {
    &&& 0 <= i < gvs.len()
    &&& gvs[i].ver@ == ver
    &&& forall|j: int| 0 <= j < i ==> (#[trigger] gvs[j]).ver@ != ver
}

/// The first catalog row carrying this version string; meaningful only
/// under `has_gv_ver`.
pub open spec fn gv_for_ver(
    gvs: Seq<crate::store::GameVersionRow>,
    ver: Seq<char>,
) -> crate::store::GameVersionRow {
    gvs[choose|i: int| first_gv_match(gvs, ver, i)]
}

/// The join rows naming this game version.
pub open spec fn mgv_pred(gvid: u64) -> spec_fn(ModGameVersionRow) -> bool {
    |r: ModGameVersionRow| r.game_version_id == gvid
}

/// The ids of the mods that support this game version, in join-table order.
pub open spec fn mods_for_gv(rows: Seq<ModGameVersionRow>, gvid: u64) -> Seq<u64> {
    rows.filter(mgv_pred(gvid)).map_values(|r: ModGameVersionRow| r.mod_id)
}

/// The listing query. Without a version filter it returns the requested
/// window of the mod table; with one it returns every mod associated with
/// the first catalog entry carrying that version string, and the window is
/// not applied. `NotFound` exactly when the filter names an unknown version
/// string, or some returned view cannot be assembled.
/// What the listing query returns for these arguments.
pub open spec fn mods_listing_post(
    reg: Registry,
    limit: int,
    offset: int,
    version: Option<String>,
    r: Result<Vec<Mod>, RegistryError>,
) -> bool {
    &&& version is None ==> match r {
        Ok(list) => {
            let rows = page_of(reg.mods@, offset, limit);
            &&& list@.len() == rows.len()
            &&& forall|k: int|
                0 <= k < rows.len() ==> is_mod_view(reg, rows[k], #[trigger] list@[k])
            &&& forall|k: int| 0 <= k < rows.len() ==> mod_view_ok(reg, #[trigger] rows[k])
        },
        Err(e) => {
            &&& e == RegistryError::NotFound
            &&& exists|k: int|
                0 <= k < page_of(reg.mods@, offset, limit).len() && !mod_view_ok(
                    reg,
                    #[trigger] page_of(reg.mods@, offset, limit)[k],
                )
        },
    }
    &&& version matches Some(v) ==> match r {
        Ok(list) => {
            let ids = mods_for_gv(reg.mod_game_versions@, gv_for_ver(reg.game_versions@, v@).id);
            &&& reg.has_gv_ver(v@)
            &&& list@.len() == ids.len()
            &&& forall|k: int|
                0 <= k < ids.len() ==> reg.has_mod_id(#[trigger] ids[k]) && mod_view_ok(
                    reg,
                    reg.mod_with_id(ids[k]),
                ) && is_mod_view(reg, reg.mod_with_id(ids[k]), list@[k])
        },
        Err(e) => {
            let ids = mods_for_gv(reg.mod_game_versions@, gv_for_ver(reg.game_versions@, v@).id);
            &&& e == RegistryError::NotFound
            &&& !reg.has_gv_ver(v@) || exists|k: int|
                0 <= k < ids.len() && (!reg.has_mod_id(#[trigger] ids[k]) || !mod_view_ok(
                    reg,
                    reg.mod_with_id(ids[k]),
                ))
        },
    }
}

#[verifier::loop_isolation(false)]
pub fn find_all(
    reg: &Registry,
    limit: usize,
    offset: usize,
    version: Option<String>,
) -> (r: Result<Vec<Mod>, RegistryError>)
    requires
        reg.wf(),
    ensures
        mods_listing_post(*reg, limit as int, offset as int, version, r),
    {
    match &version {
        Some(v) => {
            let gvi = match reg.find_game_version_by_ver(v.as_str()) {
                Some(i) => i,
                None => {
                    return Err(RegistryError::NotFound);
                },
            };
            let gvid = reg.game_versions[gvi].id;
            proof {
                assert(first_gv_match(reg.game_versions@, v@, gvi as int));
                let ci = choose|i: int| first_gv_match(reg.game_versions@, v@, i);
                if ci < gvi as int {
                    assert(reg.game_versions@[ci].ver@ == v@);
                    assert(false);
                } else if ci > gvi as int {
                    assert(reg.game_versions@[gvi as int].ver@ != v@);
                    assert(false);
                }
                assert(gv_for_ver(reg.game_versions@, v@) == reg.game_versions@[gvi as int]);
            }
            let ghost pred = mgv_pred(gvid);
            let mut ids: Vec<u64> = Vec::new();
            let mut i: usize = 0;
            while i < reg.mod_game_versions.len()
                invariant
                    i <= reg.mod_game_versions@.len(),
                    ids@ == reg.mod_game_versions@.take(i as int).filter(pred).map_values(
                        |r: ModGameVersionRow| r.mod_id,
                    ),
                decreases reg.mod_game_versions@.len() - i,
            {
                let ghost taken = reg.mod_game_versions@.take(i as int);
                let ghost row = reg.mod_game_versions@[i as int];
                proof {
                    assert(reg.mod_game_versions@.take(i + 1) =~= taken.push(row));
                    taken.lemma_filter_push(row, pred);
                    taken.filter(pred).lemma_push_map_commute(
                        |r: ModGameVersionRow| r.mod_id,
                        row,
                    );
                }
                if reg.mod_game_versions[i].game_version_id == gvid {
                    ids.push(reg.mod_game_versions[i].mod_id);
                }
                i = i + 1;
            }
            proof {
                assert(reg.mod_game_versions@.take(reg.mod_game_versions@.len() as int)
                    =~= reg.mod_game_versions@);
            }
            let mut out: Vec<Mod> = Vec::new();
            let mut j: usize = 0;
            while j < ids.len()
                invariant
                    j <= ids@.len(),
                    out@.len() == j,
                    forall|k: int|
                        0 <= k < j ==> reg.has_mod_id(#[trigger] ids@[k]) && mod_view_ok(
                            *reg,
                            reg.mod_with_id(ids@[k]),
                        ) && is_mod_view(*reg, reg.mod_with_id(ids@[k]), out@[k]),
                decreases ids@.len() - j,
            {
                let md = match reg.find_mod_by_id(ids[j]) {
                    Some(md) => md,
                    None => {
                        return Err(RegistryError::NotFound);
                    },
                };
                match Mod::from_db_mod(reg, md) {
                    Ok(m) => {
                        out.push(m);
                    },
                    Err(e) => {
                        return Err(e);
                    },
                }
                j = j + 1;
            }
            Ok(out)
        },
        None => {
            let total = reg.mods.len();
            let start = if offset > total {
                total
            } else {
                offset
            };
            let avail = total - start;
            let take = if limit > avail {
                avail
            } else {
                limit
            };
            let ghost rows = page_of(reg.mods@, offset as int, limit as int);
            let mut out: Vec<Mod> = Vec::new();
            let mut i: usize = start;
            while i < start + take
                invariant
                    start <= i <= start + take,
                    start + take <= reg.mods@.len(),
                    rows == page_of(reg.mods@, offset as int, limit as int),
                    rows.len() == take,
                    forall|k: int| 0 <= k < rows.len() ==> rows[k] == reg.mods@[start + k],
                    out@.len() == i - start,
                    forall|k: int|
                        0 <= k < out@.len() ==> is_mod_view(
                            *reg,
                            reg.mods@[start + k],
                            #[trigger] out@[k],
                        ),
                    forall|k: int|
                        0 <= k < out@.len() ==> mod_view_ok(*reg, #[trigger] reg.mods@[start + k]),
                decreases start + take - i,
            {
                match Mod::from_db_mod(reg, &reg.mods[i]) {
                    Ok(m) => {
                        out.push(m);
                    },
                    Err(e) => {
                        proof {
                            assert(!mod_view_ok(*reg, rows[i - start]));
                        }
                        return Err(e);
                    },
                }
                i = i + 1;
            }
            Ok(out)
        },
    }
}

} // verus!
