//! The relational model of the registry: one `Vec` per table, plain rows,
//! and a well-formedness invariant in place of the schema's keys.
//!
//! Identifiers are allocated from a single counter (`next_id`), so freshness
//! of a newly created row is a consequence of the invariant `ids_bounded`.

use vstd::prelude::*;

verus! {

/// String equality by contents. vstd specifies equality on `String`, so the
/// comparison goes through owned copies.
pub fn str_eq(a: &str, b: &str) -> (r: bool)
    ensures
        r == (a@ == b@),
{
    let sa: String = a.to_owned();
    let sb: String = b.to_owned();
    sa == sb
}

/// A category of mods, seeded once with a fixed vocabulary.
pub struct CategoryRow {
    pub id: u64,
    pub name: String,
    pub description: String,
}

/// A catalog entry for a supported game release.
pub struct GameVersionRow {
    pub id: u64,
    pub ver: String,
}

/// A mod: the unit of ownership and search. The slug is the external-facing
/// identifier and is unique across the table.
pub struct ModRow {
    pub id: u64,
    pub slug: String,
    pub name: String,
    pub description: Option<String>,
    pub icon: Option<String>,
    pub cover: Option<String>,
    pub website: Option<String>,
    pub author: u64,
    pub category: u64,
    pub stats: u64,
    pub created_at: i64,
    pub updated_at: i64,
}

/// One uploaded version of a mod.
pub struct VersionRow {
    pub id: u64,
    pub mod_id: u64,
    pub version: String,
    pub approved: bool,
    pub stats: u64,
    pub artifact_hash: String,
    pub download_url: String,
    pub created_at: i64,
}

/// A download counter, kept apart from its parent row so that it can be
/// updated on its own cadence.
pub struct StatsRow {
    pub id: u64,
    pub downloads: i32,
}

/// A registered user.
pub struct UserRow {
    pub id: u64,
    pub github_id: i64,
    pub username: String,
    pub display_name: Option<String>,
    pub email: String,
    pub bio: Option<String>,
    pub avatar: Option<String>,
    pub banner: Option<String>,
    pub permissions: i32,
    pub api_key: u128,
    pub created_at: i64,
    pub updated_at: i64,
}

/// Join row: a mod supports a game version.
#[derive(Clone, Copy, Debug, PartialEq, Eq, Structural)]
pub struct ModGameVersionRow {
    pub mod_id: u64,
    pub game_version_id: u64,
}

/// Join row: one version of a mod supports a game version.
#[derive(Clone, Copy, Debug, PartialEq, Eq, Structural)]
pub struct VersionGameVersionRow {
    pub version_id: u64,
    pub game_version_id: u64,
}

/// Join row: an edge between two versions, used both for dependency and for
/// conflict edges. The pair is the table's composite primary key.
#[derive(Clone, Copy, Debug, PartialEq, Eq, Structural)]
pub struct VersionEdgeRow {
    pub version_id: u64,
    pub dependent: u64,
}

/// Join row: a user owns a mod.
#[derive(Clone, Copy, Debug, PartialEq, Eq, Structural)]
pub struct UserModRow {
    pub user_id: u64,
    pub mod_id: u64,
}

/// Join row: a version belongs to a mod.
#[derive(Clone, Copy, Debug, PartialEq, Eq, Structural)]
pub struct ModVersionRow {
    pub mod_id: u64,
    pub version_id: u64,
}

impl GameVersionRow {
    /// A copy that is known, to the verifier, to equal the row it copies.
    pub fn duplicate(&self) -> (r: GameVersionRow)
        ensures
            r == *self,
    {
        GameVersionRow { id: self.id, ver: self.ver.clone() }
    }
}

/// A copy of an optional string that equals the value it copies.
pub fn duplicate_opt_string(o: &Option<String>) -> (r: Option<String>)
    ensures
        r == *o,
{
    match o {
        Some(s) => Some(s.clone()),
        None => None,
    }
}

/// The whole relational state, one `Vec` per table.
pub struct Registry {
    pub next_id: u64,
    pub users: Vec<UserRow>,
    pub categories: Vec<CategoryRow>,
    pub game_versions: Vec<GameVersionRow>,
    pub mods: Vec<ModRow>,
    pub versions: Vec<VersionRow>,
    pub mod_stats: Vec<StatsRow>,
    pub version_stats: Vec<StatsRow>,
    pub mod_game_versions: Vec<ModGameVersionRow>,
    pub version_game_versions: Vec<VersionGameVersionRow>,
    pub version_dependents: Vec<VersionEdgeRow>,
    pub version_conflicts: Vec<VersionEdgeRow>,
    pub user_mods: Vec<UserModRow>,
    pub mod_versions: Vec<ModVersionRow>,
}

impl Registry {
    /// Every identifier stored anywhere in the registry was allocated by the
    /// counter, i.e. lies below `next_id`.
    pub open spec fn ids_bounded(self) -> bool {
        &&& forall|i: int|
            0 <= i < self.users@.len() ==> (#[trigger] self.users@[i]).id < self.next_id
        &&& forall|i: int|
            0 <= i < self.categories@.len() ==> (#[trigger] self.categories@[i]).id < self.next_id
        &&& forall|i: int|
            0 <= i < self.game_versions@.len() ==> (#[trigger] self.game_versions@[i]).id
                < self.next_id
        &&& forall|i: int|
            0 <= i < self.mods@.len() ==> {
                let m = #[trigger] self.mods@[i];
                m.id < self.next_id && m.author < self.next_id && m.category < self.next_id
                    && m.stats < self.next_id
            }
        &&& forall|i: int|
            0 <= i < self.versions@.len() ==> {
                let v = #[trigger] self.versions@[i];
                v.id < self.next_id && v.mod_id < self.next_id && v.stats < self.next_id
            }
        &&& forall|i: int|
            0 <= i < self.mod_stats@.len() ==> (#[trigger] self.mod_stats@[i]).id < self.next_id
        &&& forall|i: int|
            0 <= i < self.version_stats@.len() ==> (#[trigger] self.version_stats@[i]).id
                < self.next_id
        &&& forall|i: int|
            0 <= i < self.mod_game_versions@.len() ==> {
                let r = #[trigger] self.mod_game_versions@[i];
                r.mod_id < self.next_id && r.game_version_id < self.next_id
            }
        &&& forall|i: int|
            0 <= i < self.version_game_versions@.len() ==> {
                let r = #[trigger] self.version_game_versions@[i];
                r.version_id < self.next_id && r.game_version_id < self.next_id
            }
        &&& forall|i: int|
            0 <= i < self.version_dependents@.len() ==> {
                let r = #[trigger] self.version_dependents@[i];
                r.version_id < self.next_id && r.dependent < self.next_id
            }
        &&& forall|i: int|
            0 <= i < self.version_conflicts@.len() ==> {
                let r = #[trigger] self.version_conflicts@[i];
                r.version_id < self.next_id && r.dependent < self.next_id
            }
        &&& forall|i: int|
            0 <= i < self.user_mods@.len() ==> {
                let r = #[trigger] self.user_mods@[i];
                r.user_id < self.next_id && r.mod_id < self.next_id
            }
        &&& forall|i: int|
            0 <= i < self.mod_versions@.len() ==> {
                let r = #[trigger] self.mod_versions@[i];
                r.mod_id < self.next_id && r.version_id < self.next_id
            }
    }

    /// Primary keys: within each entity table, identifiers are distinct.
    pub open spec fn entity_ids_unique(self) -> bool {
        &&& forall|i: int, j: int|
            0 <= i < j < self.users@.len() ==> (#[trigger] self.users@[i]).id != (
            #[trigger] self.users@[j]).id
        &&& forall|i: int, j: int|
            0 <= i < j < self.categories@.len() ==> (#[trigger] self.categories@[i]).id != (
            #[trigger] self.categories@[j]).id
        &&& forall|i: int, j: int|
            0 <= i < j < self.game_versions@.len() ==> (#[trigger] self.game_versions@[i]).id != (
            #[trigger] self.game_versions@[j]).id
        &&& forall|i: int, j: int|
            0 <= i < j < self.mods@.len() ==> (#[trigger] self.mods@[i]).id != (
            #[trigger] self.mods@[j]).id
        &&& forall|i: int, j: int|
            0 <= i < j < self.versions@.len() ==> (#[trigger] self.versions@[i]).id != (
            #[trigger] self.versions@[j]).id
        &&& forall|i: int, j: int|
            0 <= i < j < self.mod_stats@.len() ==> (#[trigger] self.mod_stats@[i]).id != (
            #[trigger] self.mod_stats@[j]).id
        &&& forall|i: int, j: int|
            0 <= i < j < self.version_stats@.len() ==> (#[trigger] self.version_stats@[i]).id != (
            #[trigger] self.version_stats@[j]).id
    }

    /// The slug is the external-facing identifier of a mod: globally unique.
    pub open spec fn slugs_unique(self) -> bool {
        forall|i: int, j: int|
            0 <= i < j < self.mods@.len() ==> (#[trigger] self.mods@[i]).slug@ != (
            #[trigger] self.mods@[j]).slug@
    }

    /// Composite primary keys on the association tables that carry one:
    /// no pair occurs twice.
    pub open spec fn assoc_rows_unique(self) -> bool {
        &&& self.mod_game_versions@.no_duplicates()
        &&& self.version_dependents@.no_duplicates()
        &&& self.version_conflicts@.no_duplicates()
    }

    /// Download counters never go negative.
    pub open spec fn stats_nonneg(self) -> bool {
        &&& forall|i: int|
            0 <= i < self.mod_stats@.len() ==> (#[trigger] self.mod_stats@[i]).downloads >= 0
        &&& forall|i: int|
            0 <= i < self.version_stats@.len() ==> (#[trigger] self.version_stats@[i]).downloads
                >= 0
    }

    /// Well-formedness of the whole store: what the schema's keys and
    /// constraints guarantee in the database is an invariant here.
    pub open spec fn wf(self) -> bool {
        &&& self.ids_bounded()
        &&& self.entity_ids_unique()
        &&& self.slugs_unique()
        &&& self.assoc_rows_unique()
        &&& self.stats_nonneg()
    }

    /// There is a user row carrying this identifier.
    pub open spec fn has_user(self, user_id: u64) -> bool {
        exists|i: int| 0 <= i < self.users@.len() && (#[trigger] self.users@[i]).id == user_id
    }

    /// There is a mod row carrying this slug.
    pub open spec fn has_slug(self, slug: Seq<char>) -> bool {
        exists|i: int| 0 <= i < self.mods@.len() && (#[trigger] self.mods@[i]).slug@ == slug
    }

    /// There is a category row carrying this name.
    pub open spec fn has_category(self, name: Seq<char>) -> bool {
        exists|i: int|
            0 <= i < self.categories@.len() && (#[trigger] self.categories@[i]).name@ == name
    }

    /// There is a category row carrying this identifier.
    pub open spec fn has_category_id(self, id: u64) -> bool {
        exists|i: int|
            0 <= i < self.categories@.len() && (#[trigger] self.categories@[i]).id == id
    }

    /// The category row carrying this identifier; meaningful only under
    /// `has_category_id`, and unique under `entity_ids_unique`.
    pub open spec fn category_with_id(self, id: u64) -> CategoryRow {
        self.categories@[choose|i: int|
            0 <= i < self.categories@.len() && (#[trigger] self.categories@[i]).id == id]
    }

    /// There is a game-version row carrying this identifier.
    pub open spec fn has_game_version_id(self, id: u64) -> bool {
        exists|i: int|
            0 <= i < self.game_versions@.len() && (#[trigger] self.game_versions@[i]).id == id
    }

    /// The game-version row carrying this identifier.
    pub open spec fn game_version_with_id(self, id: u64) -> GameVersionRow {
        self.game_versions@[choose|i: int|
            0 <= i < self.game_versions@.len() && (#[trigger] self.game_versions@[i]).id == id]
    }

    /// There is a mod row carrying this identifier.
    pub open spec fn has_mod_id(self, id: u64) -> bool {
        exists|i: int| 0 <= i < self.mods@.len() && (#[trigger] self.mods@[i]).id == id
    }

    /// The mod row carrying this identifier.
    pub open spec fn mod_with_id(self, id: u64) -> ModRow {
        self.mods@[choose|i: int|
            0 <= i < self.mods@.len() && (#[trigger] self.mods@[i]).id == id]
    }

    /// The user row carrying this identifier.
    pub open spec fn user_with_id(self, id: u64) -> UserRow {
        self.users@[choose|i: int|
            0 <= i < self.users@.len() && (#[trigger] self.users@[i]).id == id]
    }

    /// There is a version row carrying this identifier.
    pub open spec fn has_version_id(self, id: u64) -> bool {
        exists|i: int| 0 <= i < self.versions@.len() && (#[trigger] self.versions@[i]).id == id
    }

    /// The version row carrying this identifier.
    pub open spec fn version_with_id(self, id: u64) -> VersionRow {
        self.versions@[choose|i: int|
            0 <= i < self.versions@.len() && (#[trigger] self.versions@[i]).id == id]
    }

    /// There is a mod-stats row carrying this identifier.
    pub open spec fn has_mod_stats_id(self, id: u64) -> bool {
        exists|i: int|
            0 <= i < self.mod_stats@.len() && (#[trigger] self.mod_stats@[i]).id == id
    }

    /// The mod-stats row carrying this identifier.
    pub open spec fn mod_stats_with_id(self, id: u64) -> StatsRow {
        self.mod_stats@[choose|i: int|
            0 <= i < self.mod_stats@.len() && (#[trigger] self.mod_stats@[i]).id == id]
    }

    /// There is a version-stats row carrying this identifier.
    pub open spec fn has_version_stats_id(self, id: u64) -> bool {
        exists|i: int|
            0 <= i < self.version_stats@.len() && (#[trigger] self.version_stats@[i]).id == id
    }

    /// The version-stats row carrying this identifier.
    pub open spec fn version_stats_with_id(self, id: u64) -> StatsRow {
        self.version_stats@[choose|i: int|
            0 <= i < self.version_stats@.len() && (#[trigger] self.version_stats@[i]).id == id]
    }

    /// Looks a category up by id. Under well-formedness the match is unique.
    pub fn find_category_by_id(&self, id: u64) -> (r: Option<&CategoryRow>)
        requires
            self.wf(),
        ensures
            match r {
                Some(c) => self.has_category_id(id) && *c == self.category_with_id(id),
                None => !self.has_category_id(id),
            },
    {
        let mut i: usize = 0;
        while i < self.categories.len()
            invariant
                self.wf(),
                i <= self.categories@.len(),
                forall|j: int| 0 <= j < i ==> (#[trigger] self.categories@[j]).id != id,
            decreases self.categories@.len() - i,
        {
            if self.categories[i].id == id {
                proof {
                    assert(self.categories@[i as int].id == id);
                    let ci = choose|k: int|
                        0 <= k < self.categories@.len() && (#[trigger] self.categories@[k]).id
                            == id;
                    assert(0 <= ci < self.categories@.len() && self.categories@[ci].id == id);
                    if ci < i as int {
                        assert(self.categories@[ci].id != self.categories@[i as int].id);
                    } else if ci > i as int {
                        assert(self.categories@[i as int].id != self.categories@[ci].id);
                    }
                }
                return Some(&self.categories[i]);
            }
            i = i + 1;
        }
        None
    }

    /// Looks a game version up by id.
    pub fn find_game_version_by_id(&self, id: u64) -> (r: Option<&GameVersionRow>)
        requires
            self.wf(),
        ensures
            match r {
                Some(g) => self.has_game_version_id(id) && *g == self.game_version_with_id(id),
                None => !self.has_game_version_id(id),
            },
    {
        let mut i: usize = 0;
        while i < self.game_versions.len()
            invariant
                self.wf(),
                i <= self.game_versions@.len(),
                forall|j: int| 0 <= j < i ==> (#[trigger] self.game_versions@[j]).id != id,
            decreases self.game_versions@.len() - i,
        {
            if self.game_versions[i].id == id {
                proof {
                    assert(self.game_versions@[i as int].id == id);
                    let ci = choose|k: int|
                        0 <= k < self.game_versions@.len() && (#[trigger] self.game_versions@[k]).id
                            == id;
                    assert(0 <= ci < self.game_versions@.len() && self.game_versions@[ci].id == id);
                    if ci < i as int {
                        assert(self.game_versions@[ci].id != self.game_versions@[i as int].id);
                    } else if ci > i as int {
                        assert(self.game_versions@[i as int].id != self.game_versions@[ci].id);
                    }
                }
                return Some(&self.game_versions[i]);
            }
            i = i + 1;
        }
        None
    }

    /// Looks a mod up by id.
    pub fn find_mod_by_id(&self, id: u64) -> (r: Option<&ModRow>)
        requires
            self.wf(),
        ensures
            match r {
                Some(m) => self.has_mod_id(id) && *m == self.mod_with_id(id),
                None => !self.has_mod_id(id),
            },
    {
        let mut i: usize = 0;
        while i < self.mods.len()
            invariant
                self.wf(),
                i <= self.mods@.len(),
                forall|j: int| 0 <= j < i ==> (#[trigger] self.mods@[j]).id != id,
            decreases self.mods@.len() - i,
        {
            if self.mods[i].id == id {
                proof {
                    assert(self.mods@[i as int].id == id);
                    let ci = choose|k: int|
                        0 <= k < self.mods@.len() && (#[trigger] self.mods@[k]).id == id;
                    assert(0 <= ci < self.mods@.len() && self.mods@[ci].id == id);
                    if ci < i as int {
                        assert(self.mods@[ci].id != self.mods@[i as int].id);
                    } else if ci > i as int {
                        assert(self.mods@[i as int].id != self.mods@[ci].id);
                    }
                }
                return Some(&self.mods[i]);
            }
            i = i + 1;
        }
        None
    }

    /// Looks a user up by id.
    pub fn find_user_by_id(&self, id: u64) -> (r: Option<&UserRow>)
        requires
            self.wf(),
        ensures
            match r {
                Some(u) => self.has_user(id) && *u == self.user_with_id(id),
                None => !self.has_user(id),
            },
    {
        let mut i: usize = 0;
        while i < self.users.len()
            invariant
                self.wf(),
                i <= self.users@.len(),
                forall|j: int| 0 <= j < i ==> (#[trigger] self.users@[j]).id != id,
            decreases self.users@.len() - i,
        {
            if self.users[i].id == id {
                proof {
                    assert(self.users@[i as int].id == id);
                    let ci = choose|k: int|
                        0 <= k < self.users@.len() && (#[trigger] self.users@[k]).id == id;
                    assert(0 <= ci < self.users@.len() && self.users@[ci].id == id);
                    if ci < i as int {
                        assert(self.users@[ci].id != self.users@[i as int].id);
                    } else if ci > i as int {
                        assert(self.users@[i as int].id != self.users@[ci].id);
                    }
                }
                return Some(&self.users[i]);
            }
            i = i + 1;
        }
        None
    }

    /// Looks a version up by id.
    pub fn find_version_by_id(&self, id: u64) -> (r: Option<&VersionRow>)
        requires
            self.wf(),
        ensures
            match r {
                Some(v) => self.has_version_id(id) && *v == self.version_with_id(id),
                None => !self.has_version_id(id),
            },
    {
        let mut i: usize = 0;
        while i < self.versions.len()
            invariant
                self.wf(),
                i <= self.versions@.len(),
                forall|j: int| 0 <= j < i ==> (#[trigger] self.versions@[j]).id != id,
            decreases self.versions@.len() - i,
        {
            if self.versions[i].id == id {
                proof {
                    assert(self.versions@[i as int].id == id);
                    let ci = choose|k: int|
                        0 <= k < self.versions@.len() && (#[trigger] self.versions@[k]).id == id;
                    assert(0 <= ci < self.versions@.len() && self.versions@[ci].id == id);
                    if ci < i as int {
                        assert(self.versions@[ci].id != self.versions@[i as int].id);
                    } else if ci > i as int {
                        assert(self.versions@[i as int].id != self.versions@[ci].id);
                    }
                }
                return Some(&self.versions[i]);
            }
            i = i + 1;
        }
        None
    }

    /// Looks a mod-stats row up by id.
    pub fn find_mod_stats(&self, id: u64) -> (r: Option<&StatsRow>)
        requires
            self.wf(),
        ensures
            match r {
                Some(s) => self.has_mod_stats_id(id) && *s == self.mod_stats_with_id(id),
                None => !self.has_mod_stats_id(id),
            },
    {
        let mut i: usize = 0;
        while i < self.mod_stats.len()
            invariant
                self.wf(),
                i <= self.mod_stats@.len(),
                forall|j: int| 0 <= j < i ==> (#[trigger] self.mod_stats@[j]).id != id,
            decreases self.mod_stats@.len() - i,
        {
            if self.mod_stats[i].id == id {
                proof {
                    assert(self.mod_stats@[i as int].id == id);
                    let ci = choose|k: int|
                        0 <= k < self.mod_stats@.len() && (#[trigger] self.mod_stats@[k]).id == id;
                    assert(0 <= ci < self.mod_stats@.len() && self.mod_stats@[ci].id == id);
                    if ci < i as int {
                        assert(self.mod_stats@[ci].id != self.mod_stats@[i as int].id);
                    } else if ci > i as int {
                        assert(self.mod_stats@[i as int].id != self.mod_stats@[ci].id);
                    }
                }
                return Some(&self.mod_stats[i]);
            }
            i = i + 1;
        }
        None
    }

    /// Looks a version-stats row up by id.
    pub fn find_version_stats(&self, id: u64) -> (r: Option<&StatsRow>)
        requires
            self.wf(),
        ensures
            match r {
                Some(s) => self.has_version_stats_id(id) && *s == self.version_stats_with_id(id),
                None => !self.has_version_stats_id(id),
            },
    {
        let mut i: usize = 0;
        while i < self.version_stats.len()
            invariant
                self.wf(),
                i <= self.version_stats@.len(),
                forall|j: int| 0 <= j < i ==> (#[trigger] self.version_stats@[j]).id != id,
            decreases self.version_stats@.len() - i,
        {
            if self.version_stats[i].id == id {
                proof {
                    assert(self.version_stats@[i as int].id == id);
                    let ci = choose|k: int|
                        0 <= k < self.version_stats@.len() && (#[trigger] self.version_stats@[k]).id
                            == id;
                    assert(0 <= ci < self.version_stats@.len() && self.version_stats@[ci].id == id);
                    if ci < i as int {
                        assert(self.version_stats@[ci].id != self.version_stats@[i as int].id);
                    } else if ci > i as int {
                        assert(self.version_stats@[i as int].id != self.version_stats@[ci].id);
                    }
                }
                return Some(&self.version_stats[i]);
            }
            i = i + 1;
        }
        None
    }

    /// There is a catalog row carrying this version string.
    pub open spec fn has_gv_ver(self, ver: Seq<char>) -> bool {
        exists|i: int|
            0 <= i < self.game_versions@.len() && (#[trigger] self.game_versions@[i]).ver@ == ver
    }

    /// Index of the first catalog row with this version string, if any.
    pub fn find_game_version_by_ver(&self, ver: &str) -> (r: Option<usize>)
        ensures
            match r {
                Some(i) => {
                    &&& i < self.game_versions@.len()
                    &&& self.game_versions@[i as int].ver@ == ver@
                    &&& forall|j: int|
                        0 <= j < i ==> (#[trigger] self.game_versions@[j]).ver@ != ver@
                },
                None => !self.has_gv_ver(ver@),
            },
    {
        let mut i: usize = 0;
        while i < self.game_versions.len()
            invariant
                i <= self.game_versions@.len(),
                forall|j: int| 0 <= j < i ==> (#[trigger] self.game_versions@[j]).ver@ != ver@,
            decreases self.game_versions@.len() - i,
        {
            if str_eq(self.game_versions[i].ver.as_str(), ver) {
                return Some(i);
            }
            i = i + 1;
        }
        None
    }

    /// First user row carrying this API key, if any.
    pub fn find_user_by_api_key(&self, api_key: u128) -> (r: Option<&UserRow>)
        ensures
            match r {
                Some(u) => exists|i: int|
                    0 <= i < self.users@.len() && (#[trigger] self.users@[i]).api_key == api_key
                        && self.users@[i] == *u,
                None => forall|i: int|
                    0 <= i < self.users@.len() ==> (#[trigger] self.users@[i]).api_key != api_key,
            },
    {
        let mut i: usize = 0;
        while i < self.users.len()
            invariant
                i <= self.users@.len(),
                forall|j: int| 0 <= j < i ==> (#[trigger] self.users@[j]).api_key != api_key,
            decreases self.users@.len() - i,
        {
            if self.users[i].api_key == api_key {
                return Some(&self.users[i]);
            }
            i = i + 1;
        }
        None
    }

    /// First user row carrying this GitHub account id, if any, with its
    /// position.
    pub fn find_user_by_github_id(&self, github_id: i64) -> (r: Option<usize>)
        ensures
            match r {
                Some(i) => {
                    &&& i < self.users@.len()
                    &&& self.users@[i as int].github_id == github_id
                    &&& forall|j: int|
                        0 <= j < i ==> (#[trigger] self.users@[j]).github_id != github_id
                },
                None => forall|i: int|
                    0 <= i < self.users@.len() ==> (#[trigger] self.users@[i]).github_id
                        != github_id,
            },
    {
        let mut i: usize = 0;
        while i < self.users.len()
            invariant
                i <= self.users@.len(),
                forall|j: int| 0 <= j < i ==> (#[trigger] self.users@[j]).github_id != github_id,
            decreases self.users@.len() - i,
        {
            if self.users[i].github_id == github_id {
                return Some(i);
            }
            i = i + 1;
        }
        None
    }

    /// An empty registry.
    pub fn new() -> (r: Registry)
        ensures
            r.wf(),
            r.next_id == 1,
            r.users@ =~= Seq::<UserRow>::empty(),
            r.categories@ =~= Seq::<CategoryRow>::empty(),
            r.game_versions@ =~= Seq::<GameVersionRow>::empty(),
            r.mods@ =~= Seq::<ModRow>::empty(),
            r.versions@ =~= Seq::<VersionRow>::empty(),
            r.mod_stats@ =~= Seq::<StatsRow>::empty(),
            r.version_stats@ =~= Seq::<StatsRow>::empty(),
            r.mod_game_versions@ =~= Seq::<ModGameVersionRow>::empty(),
            r.version_game_versions@ =~= Seq::<VersionGameVersionRow>::empty(),
            r.version_dependents@ =~= Seq::<VersionEdgeRow>::empty(),
            r.version_conflicts@ =~= Seq::<VersionEdgeRow>::empty(),
            r.user_mods@ =~= Seq::<UserModRow>::empty(),
            r.mod_versions@ =~= Seq::<ModVersionRow>::empty(),
    {
        Registry {
            next_id: 1,
            users: Vec::new(),
            categories: Vec::new(),
            game_versions: Vec::new(),
            mods: Vec::new(),
            versions: Vec::new(),
            mod_stats: Vec::new(),
            version_stats: Vec::new(),
            mod_game_versions: Vec::new(),
            version_game_versions: Vec::new(),
            version_dependents: Vec::new(),
            version_conflicts: Vec::new(),
            user_mods: Vec::new(),
            mod_versions: Vec::new(),
        }
    }

    /// Index of the first category with this name, if any.
    pub fn find_category(&self, name: &str) -> (r: Option<usize>)
        ensures
            match r {
                Some(i) => {
                    &&& i < self.categories@.len()
                    &&& self.categories@[i as int].name@ == name@
                    &&& forall|j: int|
                        0 <= j < i ==> (#[trigger] self.categories@[j]).name@ != name@
                },
                None => !self.has_category(name@),
            },
    {
        let mut i: usize = 0;
        while i < self.categories.len()
            invariant
                i <= self.categories@.len(),
                forall|j: int| 0 <= j < i ==> (#[trigger] self.categories@[j]).name@ != name@,
            decreases self.categories@.len() - i,
        {
            if str_eq(self.categories[i].name.as_str(), name) {
                return Some(i);
            }
            i = i + 1;
        }
        None
    }

    /// Index of the first mod with this slug, if any. Under `slugs_unique`
    /// the match is unique.
    pub fn find_mod_by_slug(&self, slug: &str) -> (r: Option<usize>)
        ensures
            match r {
                Some(i) => {
                    &&& i < self.mods@.len()
                    &&& self.mods@[i as int].slug@ == slug@
                    &&& forall|j: int| 0 <= j < i ==> (#[trigger] self.mods@[j]).slug@ != slug@
                },
                None => !self.has_slug(slug@),
            },
    {
        let mut i: usize = 0;
        while i < self.mods.len()
            invariant
                i <= self.mods@.len(),
                forall|j: int| 0 <= j < i ==> (#[trigger] self.mods@[j]).slug@ != slug@,
            decreases self.mods@.len() - i,
        {
            if str_eq(self.mods[i].slug.as_str(), slug) {
                return Some(i);
            }
            i = i + 1;
        }
        None
    }

    /// Whether the Mod-to-GameVersion table already holds this pair.
    pub fn contains_mod_gv(&self, row: ModGameVersionRow) -> (r: bool)
        ensures
            r == self.mod_game_versions@.contains(row),
    {
        let mut i: usize = 0;
        while i < self.mod_game_versions.len()
            invariant
                i <= self.mod_game_versions@.len(),
                forall|j: int| 0 <= j < i ==> self.mod_game_versions@[j] != row,
            decreases self.mod_game_versions@.len() - i,
        {
            if self.mod_game_versions[i] == row {
                return true;
            }
            i = i + 1;
        }
        false
    }

    /// Create a user row. Users come from the authentication flow, not from
    /// ingestion.
    pub fn add_user(
        &mut self,
        github_id: i64,
        username: String,
        display_name: Option<String>,
        email: String,
        bio: Option<String>,
        avatar: Option<String>,
        banner: Option<String>,
        permissions: i32,
        api_key: u128,
        now: i64,
    ) -> (r: u64)
        requires
            old(self).wf(),
            old(self).next_id < u64::MAX,
        ensures
            final(self).wf(),
            r == old(self).next_id,
            final(self).next_id == old(self).next_id + 1,
            final(self).users@ == old(self).users@.push(
                UserRow {
                    id: r,
                    github_id,
                    username,
                    display_name,
                    email,
                    bio,
                    avatar,
                    banner,
                    permissions,
                    api_key,
                    created_at: now,
                    updated_at: now,
                },
            ),
            final(self).has_user(r),
            final(self).categories@ == old(self).categories@,
            final(self).game_versions@ == old(self).game_versions@,
            final(self).mods@ == old(self).mods@,
            final(self).versions@ == old(self).versions@,
            final(self).mod_stats@ == old(self).mod_stats@,
            final(self).version_stats@ == old(self).version_stats@,
            final(self).mod_game_versions@ == old(self).mod_game_versions@,
            final(self).version_game_versions@ == old(self).version_game_versions@,
            final(self).version_dependents@ == old(self).version_dependents@,
            final(self).version_conflicts@ == old(self).version_conflicts@,
            final(self).user_mods@ == old(self).user_mods@,
            final(self).mod_versions@ == old(self).mod_versions@,
    {
        let id = self.next_id;
        self.users.push(
            UserRow {
                id,
                github_id,
                username,
                display_name,
                email,
                bio,
                avatar,
                banner,
                permissions,
                api_key,
                created_at: now,
                updated_at: now,
            },
        );
        self.next_id = self.next_id + 1;
        proof {
            assert(self.users@[self.users@.len() - 1].id == id);
        }
        id
    }

    /// Seed one category. Categories are created only at seeding time, never
    /// during ingestion.
    pub fn add_category(&mut self, name: String, description: String) -> (r: u64)
        requires
            old(self).wf(),
            old(self).next_id < u64::MAX,
        ensures
            final(self).wf(),
            r == old(self).next_id,
            final(self).next_id == old(self).next_id + 1,
            final(self).categories@ == old(self).categories@.push(
                CategoryRow { id: r, name, description },
            ),
            final(self).users@ == old(self).users@,
            final(self).game_versions@ == old(self).game_versions@,
            final(self).mods@ == old(self).mods@,
            final(self).versions@ == old(self).versions@,
            final(self).mod_stats@ == old(self).mod_stats@,
            final(self).version_stats@ == old(self).version_stats@,
            final(self).mod_game_versions@ == old(self).mod_game_versions@,
            final(self).version_game_versions@ == old(self).version_game_versions@,
            final(self).version_dependents@ == old(self).version_dependents@,
            final(self).version_conflicts@ == old(self).version_conflicts@,
            final(self).user_mods@ == old(self).user_mods@,
            final(self).mod_versions@ == old(self).mod_versions@,
    {
        let id = self.next_id;
        self.categories.push(CategoryRow { id, name, description });
        self.next_id = self.next_id + 1;
        id
    }

    /// Seed one game version into the catalog.
    pub fn add_game_version(&mut self, ver: String) -> (r: u64)
        requires
            old(self).wf(),
            old(self).next_id < u64::MAX,
        ensures
            final(self).wf(),
            r == old(self).next_id,
            final(self).next_id == old(self).next_id + 1,
            final(self).game_versions@ == old(self).game_versions@.push(GameVersionRow { id: r, ver }),
            final(self).users@ == old(self).users@,
            final(self).categories@ == old(self).categories@,
            final(self).mods@ == old(self).mods@,
            final(self).versions@ == old(self).versions@,
            final(self).mod_stats@ == old(self).mod_stats@,
            final(self).version_stats@ == old(self).version_stats@,
            final(self).mod_game_versions@ == old(self).mod_game_versions@,
            final(self).version_game_versions@ == old(self).version_game_versions@,
            final(self).version_dependents@ == old(self).version_dependents@,
            final(self).version_conflicts@ == old(self).version_conflicts@,
            final(self).user_mods@ == old(self).user_mods@,
            final(self).mod_versions@ == old(self).mod_versions@,
    {
        let id = self.next_id;
        self.game_versions.push(GameVersionRow { id, ver });
        self.next_id = self.next_id + 1;
        id
    }
}

} // verus!
