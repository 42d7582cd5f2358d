//! The ingestion coordinator: the one transaction of the registry.
//!
//! Given a parsed package manifest and an authenticated uploader, `ingest`
//! resolves the declared category (falling back to `other`), resolves the
//! game versions that satisfy the manifest's requirement, creates or reuses
//! the mod row, always creates a version row, and materializes the
//! association rows — all of it atomically: any failure leaves the registry
//! exactly as it was.

use vstd::prelude::*;

use crate::semver_ext::{
    check_req, check_version, matches_version, req_parse_ok, ver_parse_ok, version_matched,
};
use crate::store::{
    CategoryRow, GameVersionRow, ModGameVersionRow, ModRow, ModVersionRow, Registry, StatsRow,
    UserModRow, VersionEdgeRow, VersionGameVersionRow, VersionRow,
};
use crate::RegistryError;
use vstd::string::StringExecFns;

verus! {

/// One `depends` or `conflicts` entry of a manifest: a target and a
/// requirement expression. Entries are resolved against the versions of the
/// mod being uploaded.
pub struct DependencyDecl {
    pub target: String,
    pub version_req: String,
}

/// The structured metadata of an uploaded package.
pub struct Manifest {
    pub slug: String,
    pub name: String,
    pub description: String,
    pub website: String,
    pub category: String,
    pub version: String,
    pub game_version_req: String,
    pub depends: Vec<DependencyDecl>,
    pub conflicts: Vec<DependencyDecl>,
}

/// The manifest's own version string and all of its requirement expressions
/// are well formed.
pub open spec fn manifest_semver_ok(m: Manifest) -> bool {
    &&& ver_parse_ok(m.version@)
    &&& req_parse_ok(m.game_version_req@)
    &&& forall|i: int|
        0 <= i < m.depends@.len() ==> req_parse_ok((#[trigger] m.depends@[i]).version_req@)
    &&& forall|i: int|
        0 <= i < m.conflicts@.len() ==> req_parse_ok((#[trigger] m.conflicts@[i]).version_req@)
}

/// Every version string of the catalog is a well-formed semantic version.
/// The upload matches the manifest's requirement against each of them, so an
/// ill-formed one makes the upload a validation error.
pub open spec fn catalog_parses(catalog: Seq<GameVersionRow>) -> bool {
    forall|i: int| 0 <= i < catalog.len() ==> ver_parse_ok((#[trigger] catalog[i]).ver@)
}

/// Every version string of the mod's existing rows is a well-formed
/// semantic version. Dependency and conflict entries are matched against
/// them, so an ill-formed one makes the upload a validation error.
pub open spec fn mod_versions_parse(versions: Seq<VersionRow>, mod_id: u64) -> bool {
    forall|i: int|
        0 <= i < versions.len() && (#[trigger] versions[i]).mod_id == mod_id ==> ver_parse_ok(
            versions[i].version@,
        )
}

/// The predicate a catalog entry must satisfy to be targeted by the upload.
pub open spec fn gv_match_pred(req: Seq<char>) -> spec_fn(GameVersionRow) -> bool {
    |gv: GameVersionRow| version_matched(req, gv.ver@)
}

/// The catalog entries, in catalog order, whose version string satisfies the
/// manifest's game-version requirement.
pub open spec fn matched_game_versions(catalog: Seq<GameVersionRow>, req: Seq<char>) -> Seq<
    GameVersionRow,
> {
    catalog.filter(gv_match_pred(req))
}

/// The name of the fallback category.
pub open spec fn other_label() -> Seq<char> {
    "other"@
}

/// `i` is the index of the first category named `name`.
pub open spec fn is_first_category_match(cats: Seq<CategoryRow>, name: Seq<char>, i: int) -> bool {
    &&& 0 <= i < cats.len()
    &&& cats[i].name@ == name
    &&& forall|j: int| 0 <= j < i ==> (#[trigger] cats[j]).name@ != name
}

/// Category resolution: `cat_id` is the id of the category named `declared`
/// where one exists, and of the `other` category where none does.
pub open spec fn category_resolved_to(
    cats: Seq<CategoryRow>,
    declared: Seq<char>,
    cat_id: u64,
) -> bool {
    if exists|i: int| 0 <= i < cats.len() && (#[trigger] cats[i]).name@ == declared {
        exists|i: int|
            #[trigger] is_first_category_match(cats, declared, i) && cats[i].id == cat_id
    } else {
        exists|i: int|
            #[trigger] is_first_category_match(cats, other_label(), i) && cats[i].id == cat_id
    }
}

/// The mod row carrying this slug; meaningful only under `has_slug`, and
/// unique under `slugs_unique`.
pub open spec fn mod_with_slug(mods: Seq<ModRow>, slug: Seq<char>) -> ModRow {
    mods[choose|i: int| 0 <= i < mods.len() && (#[trigger] mods[i]).slug@ == slug]
}

/// The Mod-to-GameVersion rows the upload adds: one per matched game
/// version whose pair is not already present. Pairs already present are
/// skipped, which keeps the association idempotent across uploads.
pub open spec fn mod_gv_additions(
    existing: Seq<ModGameVersionRow>,
    mod_id: u64,
    matched: Seq<GameVersionRow>,
) -> Seq<ModGameVersionRow>
    decreases matched.len(),
{
    if matched.len() == 0 {
        Seq::empty()
    } else {
        let rest = mod_gv_additions(existing, mod_id, matched.drop_last());
        let row = ModGameVersionRow { mod_id, game_version_id: matched.last().id };
        if existing.contains(row) {
            rest
        } else {
            rest.push(row)
        }
    }
}

/// The Version-to-GameVersion rows of the new version: one per matched game
/// version, unconditionally.
pub open spec fn version_gv_rows(vid: u64, matched: Seq<GameVersionRow>) -> Seq<
    VersionGameVersionRow,
> {
    matched.map_values(
        |gv: GameVersionRow| VersionGameVersionRow { version_id: vid, game_version_id: gv.id },
    )
}

/// The predicate a version row must satisfy to be the target of a
/// dependency or conflict entry: it belongs to the same mod and its version
/// string satisfies the entry's requirement.
pub open spec fn version_match_pred(mod_id: u64, req: Seq<char>) -> spec_fn(VersionRow) -> bool {
    |v: VersionRow| v.mod_id == mod_id && version_matched(req, v.version@)
}

/// The ids of the versions of `mod_id` whose version string satisfies `req`,
/// in table order.
pub open spec fn matching_version_ids(
    versions: Seq<VersionRow>,
    mod_id: u64,
    req: Seq<char>,
) -> Seq<u64> {
    versions.filter(version_match_pred(mod_id, req)).map_values(|v: VersionRow| v.id)
}

/// The targets of all dependency (or conflict) entries, in entry order and
/// table order within one entry.
pub open spec fn edge_targets(
    versions: Seq<VersionRow>,
    mod_id: u64,
    entries: Seq<DependencyDecl>,
) -> Seq<u64>
    decreases entries.len(),
{
    if entries.len() == 0 {
        Seq::empty()
    } else {
        edge_targets(versions, mod_id, entries.drop_last()) + matching_version_ids(
            versions,
            mod_id,
            entries.last().version_req@,
        )
    }
}

/// Edge rows from the new version to each target.
pub open spec fn edge_rows(vid: u64, targets: Seq<u64>) -> Seq<VersionEdgeRow> {
    targets.map_values(|t: u64| VersionEdgeRow { version_id: vid, dependent: t })
}

/// Whether materializing the dependency and conflict edges would insert the
/// same edge twice and so violate the composite primary key.
pub open spec fn dup_edges(reg: Registry, m: Manifest) -> bool {
    let mid = mod_with_slug(reg.mods@, m.slug@).id;
    ||| !edge_targets(reg.versions@, mid, m.conflicts@).no_duplicates()
    ||| !edge_targets(reg.versions@, mid, m.depends@).no_duplicates()
}

/// How an upload of manifest `m` against registry `reg` ends, checked in
/// this order: an ill-formed version string or requirement expression in the
/// manifest is a validation error; a registry in which neither the declared
/// category nor `other` exists cannot place the mod; an ill-formed version
/// string among those the matching reads, or a requirement no catalog
/// version satisfies, is a validation error; a duplicate edge is a storage
/// failure that aborts the transaction.
pub open spec fn ingest_outcome(reg: Registry, m: Manifest) -> Result<(), RegistryError> {
    if !manifest_semver_ok(m) {
        Err(RegistryError::Validation)
    } else if !reg.has_category(m.category@) && !reg.has_category(other_label()) {
        Err(RegistryError::NotFound)
    } else if !catalog_parses(reg.game_versions@) {
        Err(RegistryError::Validation)
    } else if matched_game_versions(reg.game_versions@, m.game_version_req@).len() == 0 {
        Err(RegistryError::Validation)
    } else if reg.has_slug(m.slug@) && !mod_versions_parse(
        reg.versions@,
        mod_with_slug(reg.mods@, m.slug@).id,
    ) {
        Err(RegistryError::Validation)
    } else if reg.has_slug(m.slug@) && dup_edges(reg, m) {
        Err(RegistryError::Internal)
    } else {
        Ok(())
    }
}

/// What the digest of the uploaded artifact's bytes is, written out as a
/// string. It depends on the bytes alone.
pub uninterp spec fn digest_of(b: Seq<u8>) -> Seq<char>;

/// Relies on sha2::Sha256::digest and hex::encode: the SHA-256 digest of the
/// bytes, written as lowercase hexadecimal. Both results depend on the bytes
/// alone.
#[verifier::external_body]
fn compute_digest(b: &[u8]) -> (r: String)
    ensures
        r@ == digest_of(b@),
{
    hex::encode(<sha2::Sha256 as sha2::Digest>::digest(b))
}

/// What the new version row must look like: approval starts false, the
/// artifact hash is the digest of the uploaded bytes, and the download
/// location is the deterministic template over the slug and the version
/// string.
pub open spec fn new_version_row_ok(
    v: VersionRow,
    vid: u64,
    mid: u64,
    m: Manifest,
    artifact: Seq<u8>,
    base: Seq<char>,
    vstats_id: u64,
    now: i64,
) -> bool {
    &&& v.id == vid
    &&& v.mod_id == mid
    &&& v.version@ == m.version@
    &&& v.approved == false
    &&& v.stats == vstats_id
    &&& v.artifact_hash@ == digest_of(artifact)
    &&& v.download_url@ == download_url_spec(base, m.slug@, m.version@)
    &&& v.created_at == now
}

/// What the new mod row must look like: author and category are fixed at
/// creation, the category is the resolved one, and the stats row starts at
/// zero downloads.
pub open spec fn new_mod_row_ok(
    md: ModRow,
    mid: u64,
    m: Manifest,
    uploader: u64,
    cats: Seq<CategoryRow>,
    mstats_id: u64,
    now: i64,
) -> bool {
    &&& md.id == mid
    &&& md.slug@ == m.slug@
    &&& md.name@ == m.name@
    &&& md.description matches Some(d) && d@ == m.description@
    &&& md.website matches Some(w) && w@ == m.website@
    &&& md.icon is None
    &&& md.cover is None
    &&& md.author == uploader
    &&& category_resolved_to(cats, m.category@, md.category)
    &&& md.stats == mstats_id
    &&& md.created_at == now
    &&& md.updated_at == now
}

/// What the association tables must look like after the upload: idempotent
/// Mod-to-GameVersion rows, unconditional Version-to-GameVersion rows for
/// the new version, and one edge per resolved dependency or conflict target
/// among the versions that existed before the upload.
pub open spec fn assoc_post(
    o: Registry,
    n: Registry,
    mid: u64,
    vid: u64,
    m: Manifest,
    matched: Seq<GameVersionRow>,
) -> bool {
    &&& n.mod_game_versions@ == o.mod_game_versions@ + mod_gv_additions(
        o.mod_game_versions@,
        mid,
        matched,
    )
    &&& n.version_game_versions@ == o.version_game_versions@ + version_gv_rows(vid, matched)
    &&& n.version_conflicts@ == o.version_conflicts@ + edge_rows(
        vid,
        edge_targets(o.versions@, mid, m.conflicts@),
    )
    &&& n.version_dependents@ == o.version_dependents@ + edge_rows(
        vid,
        edge_targets(o.versions@, mid, m.depends@),
    )
}

/// The whole relation between the registry before (`o`) and after (`n`) a
/// successful upload of manifest `m`, returning version id `vid`. An upload
/// of a known slug reuses the mod row untouched; an upload of a new slug
/// creates the mod, its stats row and its ownership row. A version row, its
/// stats row and its membership row are created either way.
pub open spec fn ingest_ok_post(
    o: Registry,
    n: Registry,
    m: Manifest,
    artifact: Seq<u8>,
    uploader: u64,
    base: Seq<char>,
    now: i64,
    vid: u64,
) -> bool {
    let matched = matched_game_versions(o.game_versions@, m.game_version_req@);
    &&& n.users@ == o.users@
    &&& n.categories@ == o.categories@
    &&& n.game_versions@ == o.game_versions@
    &&& if o.has_slug(m.slug@) {
        let mid = mod_with_slug(o.mods@, m.slug@).id;
        &&& vid == o.next_id + 1
        &&& n.next_id == o.next_id + 2
        &&& n.mods@ == o.mods@
        &&& n.mod_stats@ == o.mod_stats@
        &&& n.user_mods@ == o.user_mods@
        &&& n.mod_versions@ == o.mod_versions@.push(
            ModVersionRow { mod_id: mid, version_id: vid },
        )
        &&& n.version_stats@ == o.version_stats@.push(
            StatsRow { id: o.next_id, downloads: 0 },
        )
        &&& n.versions@.len() == o.versions@.len() + 1
        &&& n.versions@.drop_last() == o.versions@
        &&& new_version_row_ok(n.versions@.last(), vid, mid, m, artifact, base, o.next_id, now)
        &&& assoc_post(o, n, mid, vid, m, matched)
    } else {
        let mid = (o.next_id + 1) as u64;
        &&& vid == o.next_id + 3
        &&& n.next_id == o.next_id + 4
        &&& n.mod_stats@ == o.mod_stats@.push(StatsRow { id: o.next_id, downloads: 0 })
        &&& n.mods@.len() == o.mods@.len() + 1
        &&& n.mods@.drop_last() == o.mods@
        &&& new_mod_row_ok(n.mods@.last(), mid, m, uploader, o.categories@, o.next_id, now)
        &&& n.user_mods@ == o.user_mods@.push(UserModRow { user_id: uploader, mod_id: mid })
        &&& n.mod_versions@ == o.mod_versions@.push(
            ModVersionRow { mod_id: mid, version_id: vid },
        )
        &&& n.version_stats@ == o.version_stats@.push(
            StatsRow { id: (o.next_id + 2) as u64, downloads: 0 },
        )
        &&& n.versions@.len() == o.versions@.len() + 1
        &&& n.versions@.drop_last() == o.versions@
        &&& new_version_row_ok(
            n.versions@.last(),
            vid,
            mid,
            m,
            artifact,
            base,
            (o.next_id + 2) as u64,
            now,
        )
        &&& assoc_post(o, n, mid, vid, m, matched)
    }
}

/// Where a version's artifact is served from.
pub open spec fn download_url_spec(base: Seq<char>, slug: Seq<char>, version: Seq<char>) -> Seq<
    char,
> {
    base + "/cdn/"@ + slug + "@"@ + version
}

/// Filtering a table whose rows carry pairwise-distinct ids keeps the ids
/// pairwise distinct, and every kept row is a row of the table.
proof fn lemma_filter_distinct_ids(catalog: Seq<GameVersionRow>, pred: spec_fn(GameVersionRow) -> bool)
    requires
        forall|i: int, j: int|
            0 <= i < j < catalog.len() ==> (#[trigger] catalog[i]).id != (#[trigger] catalog[j]).id,
    ensures
        forall|i: int, j: int|
            0 <= i < j < catalog.filter(pred).len() ==> (#[trigger] catalog.filter(pred)[i]).id != (
            #[trigger] catalog.filter(pred)[j]).id,
        forall|i: int|
            0 <= i < catalog.filter(pred).len() ==> catalog.contains(
                #[trigger] catalog.filter(pred)[i],
            ),
    decreases catalog.len(),
{
    broadcast use vstd::seq_lib::group_seq_properties;

    if catalog.len() == 0 {
        vstd::prelude::Seq::lemma_filter_len(catalog, pred);
    } else {
        let dl = catalog.drop_last();
        let last = catalog.last();
        lemma_filter_distinct_ids(dl, pred);
        assert(catalog =~= dl.push(last));
        dl.lemma_filter_push(last, pred);
        let f = catalog.filter(pred);
        let fdl = dl.filter(pred);
        assert forall|i: int| 0 <= i < f.len() implies catalog.contains(f[i]) by {
            if pred(last) && i == f.len() - 1 {
                assert(catalog[catalog.len() - 1] == last);
            } else {
                assert(f[i] == fdl[i]);
                assert(dl.contains(fdl[i]));
                let w = choose|k: int| 0 <= k < dl.len() && dl[k] == fdl[i];
                assert(catalog[w] == fdl[i]);
            }
        }
        assert forall|i: int, j: int| 0 <= i < j < f.len() implies f[i].id != f[j].id by {
            if pred(last) && j == f.len() - 1 {
                assert(f[i] == fdl[i]);
                assert(dl.contains(fdl[i]));
                let w = choose|k: int| 0 <= k < dl.len() && dl[k] == fdl[i];
                assert(catalog[w] == f[i]);
                assert(catalog[catalog.len() - 1] == last);
                assert(catalog[w].id != catalog[catalog.len() - 1].id);
            } else {
                assert(f[i] == fdl[i] && f[j] == fdl[j]);
            }
        }
    }
}

/// What the Mod-to-GameVersion additions contain: rows of the uploaded mod
/// only, none that the table already holds, no row twice, and together with
/// the existing rows they cover every matched game version.
proof fn lemma_mod_gv_additions_props(
    existing: Seq<ModGameVersionRow>,
    mod_id: u64,
    matched: Seq<GameVersionRow>,
)
    requires
        forall|i: int, j: int|
            0 <= i < j < matched.len() ==> (#[trigger] matched[i]).id != (#[trigger] matched[j]).id,
    ensures
        mod_gv_additions(existing, mod_id, matched).no_duplicates(),
        forall|k: int|
            0 <= k < mod_gv_additions(existing, mod_id, matched).len() ==> {
                let row = #[trigger] mod_gv_additions(existing, mod_id, matched)[k];
                &&& row.mod_id == mod_id
                &&& !existing.contains(row)
                &&& exists|i: int|
                    0 <= i < matched.len() && (#[trigger] matched[i]).id == row.game_version_id
            },
        forall|i: int|
            0 <= i < matched.len() ==> {
                let row = ModGameVersionRow {
                    mod_id,
                    game_version_id: (#[trigger] matched[i]).id,
                };
                existing.contains(row) || mod_gv_additions(existing, mod_id, matched).contains(row)
            },
    decreases matched.len(),
{
    broadcast use vstd::seq_lib::group_seq_properties;

    if matched.len() > 0 {
        let dl = matched.drop_last();
        let last = matched.last();
        lemma_mod_gv_additions_props(existing, mod_id, dl);
        let rest = mod_gv_additions(existing, mod_id, dl);
        let row = ModGameVersionRow { mod_id, game_version_id: last.id };
        let adds = mod_gv_additions(existing, mod_id, matched);
        assert forall|k: int| 0 <= k < rest.len() implies rest[k] != row by {
            assert(rest[k].game_version_id != last.id);
        }
        assert forall|i: int|
            0 <= i < matched.len() implies {
                let r = ModGameVersionRow { mod_id, game_version_id: (#[trigger] matched[i]).id };
                existing.contains(r) || adds.contains(r)
            } by {
            let r = ModGameVersionRow { mod_id, game_version_id: matched[i].id };
            if i < matched.len() - 1 {
                assert(matched[i] == dl[i]);
                if rest.contains(r) {
                    let w = choose|k: int| 0 <= k < rest.len() && rest[k] == r;
                    if existing.contains(row) {
                        assert(adds[w] == r);
                    } else {
                        assert(adds[w] == r);
                    }
                }
            } else {
                assert(matched[i] == last);
                if !existing.contains(row) {
                    assert(adds[adds.len() - 1] == row);
                }
            }
        }
    }
}

/// Every resolved dependency or conflict target is the id of some version
/// row, so targets inherit the table's id bound.
proof fn lemma_edge_targets_bounded(
    versions: Seq<VersionRow>,
    mod_id: u64,
    entries: Seq<DependencyDecl>,
    bound: u64,
)
    requires
        forall|i: int| 0 <= i < versions.len() ==> (#[trigger] versions[i]).id < bound,
    ensures
        forall|k: int|
            0 <= k < edge_targets(versions, mod_id, entries).len() ==> #[trigger] edge_targets(
                versions,
                mod_id,
                entries,
            )[k] < bound,
    decreases entries.len(),
{
    broadcast use vstd::seq_lib::group_seq_properties;
    broadcast use vstd::prelude::Seq::lemma_filter_pred;

    if entries.len() > 0 {
        let dl = entries.drop_last();
        lemma_edge_targets_bounded(versions, mod_id, dl, bound);
        let prefix = edge_targets(versions, mod_id, dl);
        let req = entries.last().version_req@;
        let pred = version_match_pred(mod_id, req);
        let filtered = versions.filter(pred);
        let ids = matching_version_ids(versions, mod_id, req);
        let ts = edge_targets(versions, mod_id, entries);
        assert forall|k: int| 0 <= k < ts.len() implies #[trigger] ts[k] < bound by {
            if k < prefix.len() {
                assert(ts[k] == prefix[k]);
            } else {
                let q = k - prefix.len();
                assert(ts[k] == ids[q]);
                assert(ids[q] == filtered[q].id);
                assert(versions.filter(pred).contains(filtered[q]));
                versions.lemma_filter_contains_rev(pred, filtered[q]);
                let w = choose|i: int| 0 <= i < versions.len() && versions[i] == filtered[q];
                assert(versions[w].id < bound);
            }
        }
    } else {
        assert(edge_targets(versions, mod_id, entries) =~= Seq::<u64>::empty());
    }
}

/// A mod that has no version rows resolves no dependency or conflict
/// targets. In particular a freshly created mod gets no edges.
proof fn lemma_edge_targets_absent(
    versions: Seq<VersionRow>,
    mod_id: u64,
    entries: Seq<DependencyDecl>,
)
    requires
        forall|i: int| 0 <= i < versions.len() ==> (#[trigger] versions[i]).mod_id != mod_id,
    ensures
        edge_targets(versions, mod_id, entries) =~= Seq::<u64>::empty(),
    decreases entries.len(),
{
    broadcast use vstd::seq_lib::group_seq_properties;
    broadcast use vstd::prelude::Seq::lemma_filter_pred;

    if entries.len() > 0 {
        let dl = entries.drop_last();
        lemma_edge_targets_absent(versions, mod_id, dl);
        let req = entries.last().version_req@;
        let pred = version_match_pred(mod_id, req);
        let filtered = versions.filter(pred);
        if filtered.len() > 0 {
            assert(pred(filtered[0]));
            assert(versions.filter(pred).contains(filtered[0]));
            versions.lemma_filter_contains_rev(pred, filtered[0]);
            let w = choose|i: int| 0 <= i < versions.len() && versions[i] == filtered[0];
            assert(versions[w].mod_id == mod_id);
            assert(false);
        }
    }
}

/// The id of the mod an upload of `m` lands in: the existing row's id for a
/// known slug, the freshly allocated id otherwise.
pub open spec fn target_mod_id(o: Registry, m: Manifest) -> u64 {
    if o.has_slug(m.slug@) {
        mod_with_slug(o.mods@, m.slug@).id
    } else {
        (o.next_id + 1) as u64
    }
}

/// Law: an upload that no catalog game version satisfies is rejected as a
/// validation error; together with `ingest`'s postcondition on errors, the
/// registry is then returned exactly as it was, so no row of any kind is
/// created. Stated for registries that can place the mod at all — where
/// neither the declared category nor the `other` fallback exists, the upload
/// fails earlier, with `NotFound`.
pub proof fn lemma_unmatched_upload_rejected(reg: Registry, m: Manifest)
    requires
        reg.has_category(m.category@) || reg.has_category(other_label()),
        matched_game_versions(reg.game_versions@, m.game_version_req@).len() == 0,
    ensures
        ingest_outcome(reg, m) == Err::<(), RegistryError>(RegistryError::Validation),
{
}

/// Every version of the mod that satisfies some entry's requirement is
/// resolved as a target of that entry.
proof fn lemma_edge_targets_complete(
    versions: Seq<VersionRow>,
    mod_id: u64,
    entries: Seq<DependencyDecl>,
    e: int,
    t: int,
)
    requires
        0 <= e < entries.len(),
        0 <= t < versions.len(),
        versions[t].mod_id == mod_id,
        version_matched(entries[e].version_req@, versions[t].version@),
    ensures
        edge_targets(versions, mod_id, entries).contains(versions[t].id),
    decreases entries.len(),
{
    broadcast use vstd::seq_lib::group_seq_properties;
    broadcast use vstd::prelude::Seq::lemma_filter_contains;

    let dl = entries.drop_last();
    let prefix = edge_targets(versions, mod_id, dl);
    let req = entries.last().version_req@;
    let ids = matching_version_ids(versions, mod_id, req);
    let ts = edge_targets(versions, mod_id, entries);
    if e < entries.len() - 1 {
        lemma_edge_targets_complete(versions, mod_id, dl, e, t);
        let w = choose|k: int| 0 <= k < prefix.len() && prefix[k] == versions[t].id;
        assert(ts[w] == versions[t].id);
    } else {
        let pred = version_match_pred(mod_id, req);
        assert(pred(versions[t]));
        assert(versions.filter(pred).contains(versions[t]));
        let filtered = versions.filter(pred);
        let w = choose|k: int| 0 <= k < filtered.len() && filtered[k] == versions[t];
        assert(ids[w] == versions[t].id);
        assert(ts[prefix.len() + w] == versions[t].id);
    }
}

/// Law: declared dependency and conflict requirements become edges. After a
/// successful upload whose manifest carries a `depends` entry, the table of
/// dependents holds an edge from the new version to every version of the
/// same mod, present before the upload, whose version string satisfies that
/// entry's requirement; and likewise for `conflicts` entries and the table
/// of conflicts.
pub proof fn lemma_dependency_edges_created(
    o: Registry,
    n: Registry,
    m: Manifest,
    artifact: Seq<u8>,
    uploader: u64,
    base: Seq<char>,
    now: i64,
    vid: u64,
    e: int,
    t: int,
)
    requires
        ingest_ok_post(o, n, m, artifact, uploader, base, now, vid),
        0 <= t < o.versions@.len(),
        o.versions@[t].mod_id == target_mod_id(o, m),
        0 <= e < m.depends@.len() || 0 <= e < m.conflicts@.len(),
    ensures
        0 <= e < m.depends@.len() && version_matched(
            m.depends@[e].version_req@,
            o.versions@[t].version@,
        ) ==> n.version_dependents@.contains(
            VersionEdgeRow { version_id: vid, dependent: o.versions@[t].id },
        ),
        0 <= e < m.conflicts@.len() && version_matched(
            m.conflicts@[e].version_req@,
            o.versions@[t].version@,
        ) ==> n.version_conflicts@.contains(
            VersionEdgeRow { version_id: vid, dependent: o.versions@[t].id },
        ),
{
    broadcast use vstd::seq_lib::group_seq_properties;

    let mid = target_mod_id(o, m);
    if 0 <= e < m.depends@.len() && version_matched(
        m.depends@[e].version_req@,
        o.versions@[t].version@,
    ) {
        lemma_edge_targets_complete(o.versions@, mid, m.depends@, e, t);
        let ts = edge_targets(o.versions@, mid, m.depends@);
        let w = choose|k: int| 0 <= k < ts.len() && ts[k] == o.versions@[t].id;
        let rows = edge_rows(vid, ts);
        assert(rows[w] == VersionEdgeRow { version_id: vid, dependent: o.versions@[t].id });
        assert(n.version_dependents@[o.version_dependents@.len() + w] == rows[w]);
    }
    if 0 <= e < m.conflicts@.len() && version_matched(
        m.conflicts@[e].version_req@,
        o.versions@[t].version@,
    ) {
        lemma_edge_targets_complete(o.versions@, mid, m.conflicts@, e, t);
        let ts = edge_targets(o.versions@, mid, m.conflicts@);
        let w = choose|k: int| 0 <= k < ts.len() && ts[k] == o.versions@[t].id;
        let rows = edge_rows(vid, ts);
        assert(rows[w] == VersionEdgeRow { version_id: vid, dependent: o.versions@[t].id });
        assert(n.version_conflicts@[o.version_conflicts@.len() + w] == rows[w]);
    }
}

/// Law: the Mod-to-GameVersion association is idempotent. After two
/// successful uploads, the table still holds no pair twice, and it holds
/// one row for every game version either upload matched, under the mod each
/// upload landed in.
pub proof fn lemma_mod_game_versions_idempotent(
    r0: Registry,
    r1: Registry,
    r2: Registry,
    m1: Manifest,
    m2: Manifest,
    a1: Seq<u8>,
    a2: Seq<u8>,
    u1: u64,
    u2: u64,
    b1: Seq<char>,
    b2: Seq<char>,
    t1: i64,
    t2: i64,
    v1: u64,
    v2: u64,
)
    requires
        r0.wf(),
        r2.wf(),
        ingest_ok_post(r0, r1, m1, a1, u1, b1, t1, v1),
        ingest_ok_post(r1, r2, m2, a2, u2, b2, t2, v2),
    ensures
        r2.mod_game_versions@.no_duplicates(),
        forall|i: int|
            0 <= i < matched_game_versions(r0.game_versions@, m1.game_version_req@).len()
                ==> r2.mod_game_versions@.contains(
                ModGameVersionRow {
                    mod_id: target_mod_id(r0, m1),
                    game_version_id: (#[trigger] matched_game_versions(
                        r0.game_versions@,
                        m1.game_version_req@,
                    )[i]).id,
                },
            ),
        forall|i: int|
            0 <= i < matched_game_versions(r1.game_versions@, m2.game_version_req@).len()
                ==> r2.mod_game_versions@.contains(
                ModGameVersionRow {
                    mod_id: target_mod_id(r1, m2),
                    game_version_id: (#[trigger] matched_game_versions(
                        r1.game_versions@,
                        m2.game_version_req@,
                    )[i]).id,
                },
            ),
{
    broadcast use vstd::seq_lib::group_seq_properties;

    let matched1 = matched_game_versions(r0.game_versions@, m1.game_version_req@);
    let matched2 = matched_game_versions(r1.game_versions@, m2.game_version_req@);
    let mid1 = target_mod_id(r0, m1);
    let mid2 = target_mod_id(r1, m2);
    lemma_filter_distinct_ids(r0.game_versions@, gv_match_pred(m1.game_version_req@));
    lemma_filter_distinct_ids(r1.game_versions@, gv_match_pred(m2.game_version_req@));
    lemma_mod_gv_additions_props(r0.mod_game_versions@, mid1, matched1);
    lemma_mod_gv_additions_props(r1.mod_game_versions@, mid2, matched2);
    let adds1 = mod_gv_additions(r0.mod_game_versions@, mid1, matched1);
    let adds2 = mod_gv_additions(r1.mod_game_versions@, mid2, matched2);
    assert(r1.mod_game_versions@ == r0.mod_game_versions@ + adds1);
    assert(r2.mod_game_versions@ == r1.mod_game_versions@ + adds2);
    assert forall|i: int| 0 <= i < matched1.len() implies r2.mod_game_versions@.contains(
        ModGameVersionRow {
            mod_id: mid1,
            game_version_id: (#[trigger] matched1[i]).id,
        },
    ) by {
        let row = ModGameVersionRow { mod_id: mid1, game_version_id: matched1[i].id };
        assert(r0.mod_game_versions@.contains(row) || adds1.contains(row));
        assert(r1.mod_game_versions@.contains(row));
        let w = choose|k: int|
            0 <= k < r1.mod_game_versions@.len() && r1.mod_game_versions@[k] == row;
        assert(r2.mod_game_versions@[w] == row);
    }
    assert forall|i: int| 0 <= i < matched2.len() implies r2.mod_game_versions@.contains(
        ModGameVersionRow {
            mod_id: mid2,
            game_version_id: (#[trigger] matched2[i]).id,
        },
    ) by {
        let row = ModGameVersionRow { mod_id: mid2, game_version_id: matched2[i].id };
        assert(r1.mod_game_versions@.contains(row) || adds2.contains(row));
        if r1.mod_game_versions@.contains(row) {
            let w = choose|k: int|
                0 <= k < r1.mod_game_versions@.len() && r1.mod_game_versions@[k] == row;
            assert(r2.mod_game_versions@[w] == row);
        } else {
            let w = choose|k: int| 0 <= k < adds2.len() && adds2[k] == row;
            assert(r2.mod_game_versions@[r1.mod_game_versions@.len() + w] == row);
        }
    }
}

/// Committing a new version of an existing mod preserves well-formedness.
#[verifier::rlimit(100)]
proof fn lemma_ingest_commit_wf(
    o: Registry,
    n: Registry,
    mid: u64,
    vid: u64,
    adds: Seq<ModGameVersionRow>,
    vgvs: Seq<VersionGameVersionRow>,
    crows: Seq<VersionEdgeRow>,
    drows: Seq<VersionEdgeRow>,
    cts: Seq<u64>,
    dts: Seq<u64>,
    matched: Seq<GameVersionRow>,
)
    requires
        o.wf(),
        o.next_id <= u64::MAX - 4,
        mid < o.next_id,
        vid == o.next_id + 1,
        n.next_id == o.next_id + 2,
        n.users@ == o.users@,
        n.categories@ == o.categories@,
        n.game_versions@ == o.game_versions@,
        n.mods@ == o.mods@,
        n.mod_stats@ == o.mod_stats@,
        n.user_mods@ == o.user_mods@,
        n.mod_versions@ == o.mod_versions@.push(ModVersionRow { mod_id: mid, version_id: vid }),
        n.version_stats@ == o.version_stats@.push(StatsRow { id: o.next_id, downloads: 0 }),
        n.versions@ == o.versions@.push(n.versions@.last()),
        n.versions@.last().id == vid,
        n.versions@.last().mod_id == mid,
        n.versions@.last().stats == o.next_id,
        n.mod_game_versions@ == o.mod_game_versions@ + adds,
        adds.no_duplicates(),
        forall|k: int|
            0 <= k < adds.len() ==> {
                let row = #[trigger] adds[k];
                row.mod_id == mid && !o.mod_game_versions@.contains(row) && row.game_version_id
                    < o.next_id
            },
        n.version_game_versions@ == o.version_game_versions@ + vgvs,
        vgvs == version_gv_rows(vid, matched),
        forall|i: int| 0 <= i < matched.len() ==> (#[trigger] matched[i]).id < o.next_id,
        n.version_conflicts@ == o.version_conflicts@ + crows,
        crows == edge_rows(vid, cts),
        cts.no_duplicates(),
        forall|k: int| 0 <= k < cts.len() ==> #[trigger] cts[k] < o.next_id,
        n.version_dependents@ == o.version_dependents@ + drows,
        drows == edge_rows(vid, dts),
        dts.no_duplicates(),
        forall|k: int| 0 <= k < dts.len() ==> #[trigger] dts[k] < o.next_id,
    ensures
        n.wf(),
{
    lemma_assoc_tables_wf(o, n, mid, vid, adds, vgvs, crows, drows, cts, dts, matched);
    assert forall|i: int, j: int|
        0 <= i < j < n.versions@.len() implies (#[trigger] n.versions@[i]).id != (
    #[trigger] n.versions@[j]).id by {
        if j == n.versions@.len() - 1 {
            assert(n.versions@[i] == o.versions@[i]);
            assert(o.versions@[i].id < o.next_id);
        }
    }
    assert forall|i: int, j: int|
        0 <= i < j < n.version_stats@.len() implies (#[trigger] n.version_stats@[i]).id != (
    #[trigger] n.version_stats@[j]).id by {
        if j == n.version_stats@.len() - 1 {
            assert(n.version_stats@[i] == o.version_stats@[i]);
            assert(o.version_stats@[i].id < o.next_id);
        }
    }
    assert forall|i: int|
        0 <= i < n.versions@.len() implies {
            let v = #[trigger] n.versions@[i];
            v.id < n.next_id && v.mod_id < n.next_id && v.stats < n.next_id
        } by {
        if i < n.versions@.len() - 1 {
            assert(n.versions@[i] == o.versions@[i]);
            assert(o.versions@[i].id < o.next_id);
        }
    }
    assert forall|i: int|
        0 <= i < n.version_stats@.len() implies (#[trigger] n.version_stats@[i]).id
            < n.next_id by {
        if i < n.version_stats@.len() - 1 {
            assert(n.version_stats@[i] == o.version_stats@[i]);
        }
    }
    assert forall|i: int|
        0 <= i < n.version_stats@.len() implies (#[trigger] n.version_stats@[i]).downloads
            >= 0 by {
        if i < n.version_stats@.len() - 1 {
            assert(n.version_stats@[i] == o.version_stats@[i]);
        }
    }
    assert forall|i: int|
        0 <= i < n.mod_versions@.len() implies {
            let r = #[trigger] n.mod_versions@[i];
            r.mod_id < n.next_id && r.version_id < n.next_id
        } by {
        if i < n.mod_versions@.len() - 1 {
            assert(n.mod_versions@[i] == o.mod_versions@[i]);
        }
    }
}

/// The association-table part of well-formedness, shared by both commit
/// paths: bounded ids and no duplicated composite keys.
#[verifier::rlimit(100)]
proof fn lemma_assoc_tables_wf(
    o: Registry,
    n: Registry,
    mid: u64,
    vid: u64,
    adds: Seq<ModGameVersionRow>,
    vgvs: Seq<VersionGameVersionRow>,
    crows: Seq<VersionEdgeRow>,
    drows: Seq<VersionEdgeRow>,
    cts: Seq<u64>,
    dts: Seq<u64>,
    matched: Seq<GameVersionRow>,
)
    requires
        o.wf(),
        mid < n.next_id,
        o.next_id < vid < n.next_id,
        o.next_id <= n.next_id,
        n.mod_game_versions@ == o.mod_game_versions@ + adds,
        adds.no_duplicates(),
        forall|k: int|
            0 <= k < adds.len() ==> {
                let row = #[trigger] adds[k];
                row.mod_id == mid && !o.mod_game_versions@.contains(row) && row.game_version_id
                    < o.next_id
            },
        n.version_game_versions@ == o.version_game_versions@ + vgvs,
        vgvs == version_gv_rows(vid, matched),
        forall|i: int| 0 <= i < matched.len() ==> (#[trigger] matched[i]).id < o.next_id,
        n.version_conflicts@ == o.version_conflicts@ + crows,
        crows == edge_rows(vid, cts),
        cts.no_duplicates(),
        forall|k: int| 0 <= k < cts.len() ==> #[trigger] cts[k] < o.next_id,
        n.version_dependents@ == o.version_dependents@ + drows,
        drows == edge_rows(vid, dts),
        dts.no_duplicates(),
        forall|k: int| 0 <= k < dts.len() ==> #[trigger] dts[k] < o.next_id,
    ensures
        n.mod_game_versions@.no_duplicates(),
        n.version_conflicts@.no_duplicates(),
        n.version_dependents@.no_duplicates(),
        forall|i: int|
            0 <= i < n.mod_game_versions@.len() ==> {
                let r = #[trigger] n.mod_game_versions@[i];
                r.mod_id < n.next_id && r.game_version_id < n.next_id
            },
        forall|i: int|
            0 <= i < n.version_game_versions@.len() ==> {
                let r = #[trigger] n.version_game_versions@[i];
                r.version_id < n.next_id && r.game_version_id < n.next_id
            },
        forall|i: int|
            0 <= i < n.version_conflicts@.len() ==> {
                let r = #[trigger] n.version_conflicts@[i];
                r.version_id < n.next_id && r.dependent < n.next_id
            },
        forall|i: int|
            0 <= i < n.version_dependents@.len() ==> {
                let r = #[trigger] n.version_dependents@[i];
                r.version_id < n.next_id && r.dependent < n.next_id
            },
{
    let omgv = o.mod_game_versions@;
    assert forall|i: int, j: int|
        0 <= i < omgv.len() && 0 <= j < adds.len() implies omgv[i] != adds[j] by {
        if omgv[i] == adds[j] {
            assert(omgv.contains(adds[j]));
        }
    }
    vstd::seq_lib::lemma_no_dup_in_concat(omgv, adds);

    assert forall|p: int, q: int|
        0 <= p < crows.len() && 0 <= q < crows.len() && p != q implies crows[p] != crows[q] by {
        assert(crows[p].dependent == cts[p]);
        assert(crows[q].dependent == cts[q]);
    }
    assert forall|i: int, j: int|
        0 <= i < o.version_conflicts@.len() && 0 <= j < crows.len() implies o.version_conflicts@[i]
            != crows[j] by {
        assert(o.version_conflicts@[i].version_id < o.next_id);
        assert(crows[j].version_id == vid);
    }
    vstd::seq_lib::lemma_no_dup_in_concat(o.version_conflicts@, crows);

    assert forall|p: int, q: int|
        0 <= p < drows.len() && 0 <= q < drows.len() && p != q implies drows[p] != drows[q] by {
        assert(drows[p].dependent == dts[p]);
        assert(drows[q].dependent == dts[q]);
    }
    assert forall|i: int, j: int|
        0 <= i < o.version_dependents@.len() && 0 <= j < drows.len()
            implies o.version_dependents@[i] != drows[j] by {
        assert(o.version_dependents@[i].version_id < o.next_id);
        assert(drows[j].version_id == vid);
    }
    vstd::seq_lib::lemma_no_dup_in_concat(o.version_dependents@, drows);

    assert forall|i: int|
        0 <= i < n.mod_game_versions@.len() implies {
            let r = #[trigger] n.mod_game_versions@[i];
            r.mod_id < n.next_id && r.game_version_id < n.next_id
        } by {
        if i < omgv.len() {
            assert(n.mod_game_versions@[i] == omgv[i]);
        } else {
            assert(n.mod_game_versions@[i] == adds[i - omgv.len()]);
        }
    }
    assert forall|i: int|
        0 <= i < n.version_game_versions@.len() implies {
            let r = #[trigger] n.version_game_versions@[i];
            r.version_id < n.next_id && r.game_version_id < n.next_id
        } by {
        if i < o.version_game_versions@.len() {
            assert(n.version_game_versions@[i] == o.version_game_versions@[i]);
        } else {
            let q = i - o.version_game_versions@.len();
            assert(n.version_game_versions@[i] == vgvs[q]);
            assert(vgvs[q].game_version_id == matched[q].id);
        }
    }
    assert forall|i: int|
        0 <= i < n.version_conflicts@.len() implies {
            let r = #[trigger] n.version_conflicts@[i];
            r.version_id < n.next_id && r.dependent < n.next_id
        } by {
        if i < o.version_conflicts@.len() {
            assert(n.version_conflicts@[i] == o.version_conflicts@[i]);
        } else {
            let q = i - o.version_conflicts@.len();
            assert(n.version_conflicts@[i] == crows[q]);
            assert(crows[q].dependent == cts[q]);
        }
    }
    assert forall|i: int|
        0 <= i < n.version_dependents@.len() implies {
            let r = #[trigger] n.version_dependents@[i];
            r.version_id < n.next_id && r.dependent < n.next_id
        } by {
        if i < o.version_dependents@.len() {
            assert(n.version_dependents@[i] == o.version_dependents@[i]);
        } else {
            let q = i - o.version_dependents@.len();
            assert(n.version_dependents@[i] == drows[q]);
            assert(drows[q].dependent == dts[q]);
        }
    }
}

/// Committing a brand-new mod with its first version preserves
/// well-formedness.
#[verifier::rlimit(100)]
proof fn lemma_ingest_create_wf(
    o: Registry,
    n: Registry,
    mid: u64,
    vid: u64,
    uploader: u64,
    adds: Seq<ModGameVersionRow>,
    vgvs: Seq<VersionGameVersionRow>,
    matched: Seq<GameVersionRow>,
)
    requires
        o.wf(),
        o.next_id <= u64::MAX - 4,
        uploader < o.next_id,
        mid == o.next_id + 1,
        vid == o.next_id + 3,
        n.next_id == o.next_id + 4,
        n.users@ == o.users@,
        n.categories@ == o.categories@,
        n.game_versions@ == o.game_versions@,
        n.mod_stats@ == o.mod_stats@.push(StatsRow { id: o.next_id, downloads: 0 }),
        n.mods@ == o.mods@.push(n.mods@.last()),
        n.mods@.last().id == mid,
        n.mods@.last().author == uploader,
        n.mods@.last().category < o.next_id,
        n.mods@.last().stats == o.next_id,
        forall|i: int|
            0 <= i < o.mods@.len() ==> (#[trigger] o.mods@[i]).slug@ != n.mods@.last().slug@,
        n.user_mods@ == o.user_mods@.push(UserModRow { user_id: uploader, mod_id: mid }),
        n.version_stats@ == o.version_stats@.push(
            StatsRow { id: (o.next_id + 2) as u64, downloads: 0 },
        ),
        n.versions@ == o.versions@.push(n.versions@.last()),
        n.versions@.last().id == vid,
        n.versions@.last().mod_id == mid,
        n.versions@.last().stats == o.next_id + 2,
        n.mod_versions@ == o.mod_versions@.push(ModVersionRow { mod_id: mid, version_id: vid }),
        n.mod_game_versions@ == o.mod_game_versions@ + adds,
        adds.no_duplicates(),
        forall|k: int|
            0 <= k < adds.len() ==> {
                let row = #[trigger] adds[k];
                row.mod_id == mid && !o.mod_game_versions@.contains(row) && row.game_version_id
                    < o.next_id
            },
        n.version_game_versions@ == o.version_game_versions@ + vgvs,
        vgvs == version_gv_rows(vid, matched),
        forall|i: int| 0 <= i < matched.len() ==> (#[trigger] matched[i]).id < o.next_id,
        n.version_conflicts@ == o.version_conflicts@,
        n.version_dependents@ == o.version_dependents@,
    ensures
        n.wf(),
{
    assert(n.version_conflicts@ =~= o.version_conflicts@ + Seq::<VersionEdgeRow>::empty());
    assert(n.version_dependents@ =~= o.version_dependents@ + Seq::<VersionEdgeRow>::empty());
    assert(edge_rows(vid, Seq::<u64>::empty()) =~= Seq::<VersionEdgeRow>::empty());
    lemma_assoc_tables_wf(
        o,
        n,
        mid,
        vid,
        adds,
        vgvs,
        Seq::empty(),
        Seq::empty(),
        Seq::empty(),
        Seq::empty(),
        matched,
    );

    assert forall|i: int, j: int|
        0 <= i < j < n.mods@.len() implies (#[trigger] n.mods@[i]).id != (
    #[trigger] n.mods@[j]).id by {
        if j == n.mods@.len() - 1 {
            assert(n.mods@[i] == o.mods@[i]);
            assert(o.mods@[i].id < o.next_id);
        }
    }
    assert forall|i: int, j: int|
        0 <= i < j < n.mods@.len() implies (#[trigger] n.mods@[i]).slug@ != (
    #[trigger] n.mods@[j]).slug@ by {
        if j == n.mods@.len() - 1 {
            assert(n.mods@[i] == o.mods@[i]);
        }
    }
    assert forall|i: int, j: int|
        0 <= i < j < n.versions@.len() implies (#[trigger] n.versions@[i]).id != (
    #[trigger] n.versions@[j]).id by {
        if j == n.versions@.len() - 1 {
            assert(n.versions@[i] == o.versions@[i]);
            assert(o.versions@[i].id < o.next_id);
        }
    }
    assert forall|i: int, j: int|
        0 <= i < j < n.mod_stats@.len() implies (#[trigger] n.mod_stats@[i]).id != (
    #[trigger] n.mod_stats@[j]).id by {
        if j == n.mod_stats@.len() - 1 {
            assert(n.mod_stats@[i] == o.mod_stats@[i]);
            assert(o.mod_stats@[i].id < o.next_id);
        }
    }
    assert forall|i: int, j: int|
        0 <= i < j < n.version_stats@.len() implies (#[trigger] n.version_stats@[i]).id != (
    #[trigger] n.version_stats@[j]).id by {
        if j == n.version_stats@.len() - 1 {
            assert(n.version_stats@[i] == o.version_stats@[i]);
            assert(o.version_stats@[i].id < o.next_id);
        }
    }
    assert forall|i: int|
        0 <= i < n.mods@.len() implies {
            let m = #[trigger] n.mods@[i];
            m.id < n.next_id && m.author < n.next_id && m.category < n.next_id && m.stats
                < n.next_id
        } by {
        if i < n.mods@.len() - 1 {
            assert(n.mods@[i] == o.mods@[i]);
        }
    }
    assert forall|i: int|
        0 <= i < n.versions@.len() implies {
            let v = #[trigger] n.versions@[i];
            v.id < n.next_id && v.mod_id < n.next_id && v.stats < n.next_id
        } by {
        if i < n.versions@.len() - 1 {
            assert(n.versions@[i] == o.versions@[i]);
        }
    }
    assert forall|i: int|
        0 <= i < n.mod_stats@.len() implies (#[trigger] n.mod_stats@[i]).id < n.next_id && (
        #[trigger] n.mod_stats@[i]).downloads >= 0 by {
        if i < n.mod_stats@.len() - 1 {
            assert(n.mod_stats@[i] == o.mod_stats@[i]);
        }
    }
    assert forall|i: int|
        0 <= i < n.version_stats@.len() implies (#[trigger] n.version_stats@[i]).id < n.next_id
            && (#[trigger] n.version_stats@[i]).downloads >= 0 by {
        if i < n.version_stats@.len() - 1 {
            assert(n.version_stats@[i] == o.version_stats@[i]);
        }
    }
    assert forall|i: int|
        0 <= i < n.user_mods@.len() implies {
            let r = #[trigger] n.user_mods@[i];
            r.user_id < n.next_id && r.mod_id < n.next_id
        } by {
        if i < n.user_mods@.len() - 1 {
            assert(n.user_mods@[i] == o.user_mods@[i]);
        }
    }
    assert forall|i: int|
        0 <= i < n.mod_versions@.len() implies {
            let r = #[trigger] n.mod_versions@[i];
            r.mod_id < n.next_id && r.version_id < n.next_id
        } by {
        if i < n.mod_versions@.len() - 1 {
            assert(n.mod_versions@[i] == o.mod_versions@[i]);
        }
    }
}

/// Collects the catalog entries that satisfy the requirement, in catalog
/// order.
fn collect_matched(catalog: &Vec<GameVersionRow>, req: &str) -> (r: Vec<GameVersionRow>)
    ensures
        r@ == matched_game_versions(catalog@, req@),
{
    let pred = Ghost(gv_match_pred(req@));
    let mut out: Vec<GameVersionRow> = Vec::new();
    let mut i: usize = 0;
    while i < catalog.len()
        invariant
            i <= catalog@.len(),
            out@ == catalog@.take(i as int).filter(pred@),
            pred@ == gv_match_pred(req@),
        decreases catalog@.len() - i,
    {
        proof {
            assert(catalog@.take(i + 1) =~= catalog@.take(i as int).push(catalog@[i as int]));
            catalog@.take(i as int).lemma_filter_push(catalog@[i as int], pred@);
        }
        if matches_version(req, catalog[i].ver.as_str()) {
            out.push(catalog[i].duplicate());
        }
        i = i + 1;
    }
    proof {
        assert(catalog@.take(catalog@.len() as int) =~= catalog@);
    }
    out
}

/// Collects the Mod-to-GameVersion pairs that are not in the table yet.
fn collect_mod_gv_additions(
    reg: &Registry,
    mod_id: u64,
    matched: &Vec<GameVersionRow>,
) -> (r: Vec<ModGameVersionRow>)
    ensures
        r@ == mod_gv_additions(reg.mod_game_versions@, mod_id, matched@),
{
    let mut out: Vec<ModGameVersionRow> = Vec::new();
    let mut i: usize = 0;
    while i < matched.len()
        invariant
            i <= matched@.len(),
            out@ == mod_gv_additions(reg.mod_game_versions@, mod_id, matched@.take(i as int)),
        decreases matched@.len() - i,
    {
        let row = ModGameVersionRow { mod_id, game_version_id: matched[i].id };
        proof {
            let t = matched@.take(i + 1);
            assert(t.drop_last() =~= matched@.take(i as int));
            assert(t.last() == matched@[i as int]);
        }
        if !reg.contains_mod_gv(row) {
            out.push(row);
        }
        i = i + 1;
    }
    proof {
        assert(matched@.take(matched@.len() as int) =~= matched@);
    }
    out
}

/// Resolves all dependency (or conflict) entries to the ids of the versions
/// of `mod_id` that satisfy them, in entry order.
fn collect_edge_targets(
    versions: &Vec<VersionRow>,
    mod_id: u64,
    entries: &Vec<DependencyDecl>,
) -> (r: Vec<u64>)
    ensures
        r@ == edge_targets(versions@, mod_id, entries@),
{
    let mut out: Vec<u64> = Vec::new();
    let mut i: usize = 0;
    while i < entries.len()
        invariant
            i <= entries@.len(),
            out@ == edge_targets(versions@, mod_id, entries@.take(i as int)),
        decreases entries@.len() - i,
    {
        let req: &str = entries[i].version_req.as_str();
        let pred = Ghost(version_match_pred(mod_id, req@));
        let ghost prefix = out@;
        let mut j: usize = 0;
        while j < versions.len()
            invariant
                j <= versions@.len(),
                pred@ == version_match_pred(mod_id, req@),
                out@ == prefix + versions@.take(j as int).filter(pred@).map_values(
                    |v: VersionRow| v.id,
                ),
            decreases versions@.len() - j,
        {
            proof {
                assert(versions@.take(j + 1) =~= versions@.take(j as int).push(
                    versions@[j as int],
                ));
                versions@.take(j as int).lemma_filter_push(versions@[j as int], pred@);
                versions@.take(j as int).filter(pred@).lemma_push_map_commute(
                    |v: VersionRow| v.id,
                    versions@[j as int],
                );
            }
            if versions[j].mod_id == mod_id && matches_version(req, versions[j].version.as_str()) {
                out.push(versions[j].id);
            }
            j = j + 1;
        }
        proof {
            assert(versions@.take(versions@.len() as int) =~= versions@);
            let t = entries@.take(i + 1);
            assert(t.drop_last() =~= entries@.take(i as int));
            assert(t.last() == entries@[i as int]);
        }
        i = i + 1;
    }
    proof {
        assert(entries@.take(entries@.len() as int) =~= entries@);
    }
    out
}

/// Whether the list of edge targets holds the same id twice.
fn has_duplicate_u64(xs: &Vec<u64>) -> (r: bool)
    ensures
        r == !xs@.no_duplicates(),
{
    let mut i: usize = 0;
    while i < xs.len()
        invariant
            i <= xs@.len(),
            forall|p: int, q: int| 0 <= p < q < i ==> xs@[p] != xs@[q],
        decreases xs@.len() - i,
    {
        let mut j: usize = 0;
        while j < i
            invariant
                j <= i < xs@.len(),
                forall|q: int| 0 <= q < j ==> xs@[q] != xs@[i as int],
            decreases i - j,
        {
            if xs[j] == xs[i] {
                return true;
            }
            j = j + 1;
        }
        i = i + 1;
    }
    false
}

/// Appends all of `src` to `dst`, preserving order.
fn append_rows<T: Copy>(dst: &mut Vec<T>, src: &Vec<T>)
    ensures
        final(dst)@ == old(dst)@ + src@,
{
    let mut i: usize = 0;
    while i < src.len()
        invariant
            i <= src@.len(),
            dst@ == old(dst)@ + src@.take(i as int),
        decreases src@.len() - i,
    {
        proof {
            assert(old(dst)@ + src@.take(i + 1) =~= (old(dst)@ + src@.take(i as int)).push(
                src@[i as int],
            ));
        }
        dst.push(src[i]);
        i = i + 1;
    }
    proof {
        assert(src@.take(src@.len() as int) =~= src@);
    }
}

/// Inserts one Version-to-GameVersion row per matched game version.
fn push_version_gvs(dst: &mut Vec<VersionGameVersionRow>, vid: u64, matched: &Vec<GameVersionRow>)
    ensures
        final(dst)@ == old(dst)@ + version_gv_rows(vid, matched@),
{
    broadcast use vstd::prelude::Seq::lemma_push_map_commute;

    let mut i: usize = 0;
    while i < matched.len()
        invariant
            i <= matched@.len(),
            dst@ == old(dst)@ + version_gv_rows(vid, matched@.take(i as int)),
        decreases matched@.len() - i,
    {
        proof {
            assert(matched@.take(i + 1) =~= matched@.take(i as int).push(matched@[i as int]));
            assert(old(dst)@ + version_gv_rows(vid, matched@.take(i + 1)) =~= (old(dst)@
                + version_gv_rows(vid, matched@.take(i as int))).push(
                VersionGameVersionRow { version_id: vid, game_version_id: matched@[i as int].id },
            ));
        }
        dst.push(VersionGameVersionRow { version_id: vid, game_version_id: matched[i].id });
        i = i + 1;
    }
    proof {
        assert(matched@.take(matched@.len() as int) =~= matched@);
    }
}

/// Inserts one edge row per resolved target.
fn push_edges(dst: &mut Vec<VersionEdgeRow>, vid: u64, targets: &Vec<u64>)
    ensures
        final(dst)@ == old(dst)@ + edge_rows(vid, targets@),
{
    broadcast use vstd::prelude::Seq::lemma_push_map_commute;

    let mut i: usize = 0;
    while i < targets.len()
        invariant
            i <= targets@.len(),
            dst@ == old(dst)@ + edge_rows(vid, targets@.take(i as int)),
        decreases targets@.len() - i,
    {
        proof {
            assert(targets@.take(i + 1) =~= targets@.take(i as int).push(targets@[i as int]));
            assert(old(dst)@ + edge_rows(vid, targets@.take(i + 1)) =~= (old(dst)@ + edge_rows(
                vid,
                targets@.take(i as int),
            )).push(VersionEdgeRow { version_id: vid, dependent: targets@[i as int] }));
        }
        dst.push(VersionEdgeRow { version_id: vid, dependent: targets[i] });
        i = i + 1;
    }
    proof {
        assert(targets@.take(targets@.len() as int) =~= targets@);
    }
}

/// Builds the deterministic download location of an uploaded version.
pub fn download_url(base: &str, slug: &str, version: &str) -> (r: String)
    ensures
        r@ == download_url_spec(base@, slug@, version@),
{
    let mut s: String = base.to_owned();
    s.append("/cdn/");
    s.append(slug);
    s.append("@");
    s.append(version);
    s
}

/// Resolves the category an upload declaring `declared` lands in: the first
/// category of that name, or the first category named `other` where none
/// carries the declared name. `None` only when the fallback is missing too.
pub fn resolve_category(reg: &Registry, declared: &str) -> (r: Option<usize>)
    ensures
        match r {
            Some(i) => {
                &&& i < reg.categories@.len()
                &&& category_resolved_to(reg.categories@, declared@, reg.categories@[i as int].id)
                &&& reg.has_category(declared@) ==> reg.categories@[i as int].name@ == declared@
                &&& !reg.has_category(declared@) ==> reg.categories@[i as int].name@
                    == other_label()
            },
            None => !reg.has_category(declared@) && !reg.has_category(other_label()),
        },
{
    match reg.find_category(declared) {
        Some(i) => {
            proof {
                assert(is_first_category_match(reg.categories@, declared@, i as int));
            }
            Some(i)
        },
        None => {
            match reg.find_category("other") {
                Some(i) => {
                    proof {
                        assert(is_first_category_match(reg.categories@, other_label(), i as int));
                    }
                    Some(i)
                },
                None => None,
            }
        },
    }
}

/// The ingestion coordinator. Uploads one parsed package into the registry:
/// resolves the category (falling back to `other`), resolves the game
/// versions satisfying the manifest's requirement, reuses or creates the mod
/// row, always creates a version row with its zeroed stats row, and
/// materializes the association rows. The whole upload is one transaction:
/// on any error the registry is returned unchanged. The caller must have
/// checked the uploader's capability already.
#[verifier::loop_isolation(false)]
#[verifier::rlimit(60)]
pub fn ingest(
    reg: &mut Registry,
    manifest: &Manifest,
    artifact: &[u8],
    uploader: u64,
    base_url: &str,
    now: i64,
) -> (r: Result<u64, RegistryError>)
    requires
        old(reg).wf(),
        old(reg).has_user(uploader),
        old(reg).next_id <= u64::MAX - 4,
    ensures
        final(reg).wf(),
        r is Ok <==> ingest_outcome(*old(reg), *manifest) is Ok,
        r matches Err(e) ==> ingest_outcome(*old(reg), *manifest) == Err::<(), RegistryError>(e),
        r is Err ==> *final(reg) == *old(reg),
        r matches Ok(vid) ==> ingest_ok_post(
            *old(reg),
            *final(reg),
            *manifest,
            artifact@,
            uploader,
            base_url@,
            now,
            vid,
        ),
{
    // Validation: the manifest's version string and every requirement
    // expression must parse.
    if !check_version(manifest.version.as_str()) {
        return Err(RegistryError::Validation);
    }
    if !check_req(manifest.game_version_req.as_str()) {
        return Err(RegistryError::Validation);
    }
    let mut k: usize = 0;
    while k < manifest.depends.len()
        invariant
            k <= manifest.depends@.len(),
            forall|j: int|
                0 <= j < k ==> req_parse_ok((#[trigger] manifest.depends@[j]).version_req@),
        decreases manifest.depends@.len() - k,
    {
        if !check_req(manifest.depends[k].version_req.as_str()) {
            return Err(RegistryError::Validation);
        }
        k = k + 1;
    }
    let mut k2: usize = 0;
    while k2 < manifest.conflicts.len()
        invariant
            k2 <= manifest.conflicts@.len(),
            forall|j: int|
                0 <= j < k2 ==> req_parse_ok((#[trigger] manifest.conflicts@[j]).version_req@),
        decreases manifest.conflicts@.len() - k2,
    {
        if !check_req(manifest.conflicts[k2].version_req.as_str()) {
            return Err(RegistryError::Validation);
        }
        k2 = k2 + 1;
    }
    assert(manifest_semver_ok(*manifest));

    // Category resolution: the declared name, or the fixed fallback.
    let cat_idx: usize = match resolve_category(reg, manifest.category.as_str()) {
        Some(i) => i,
        None => {
            return Err(RegistryError::NotFound);
        },
    };
    let cat_id = reg.categories[cat_idx].id;
    assert(category_resolved_to(reg.categories@, manifest.category@, cat_id));
    assert(reg.has_category(manifest.category@) || reg.has_category(other_label()));

    // Validation: the catalog strings the matching will read must parse.
    let mut c: usize = 0;
    while c < reg.game_versions.len()
        invariant
            c <= reg.game_versions@.len(),
            forall|j: int|
                0 <= j < c ==> ver_parse_ok((#[trigger] reg.game_versions@[j]).ver@),
        decreases reg.game_versions@.len() - c,
    {
        if !check_version(reg.game_versions[c].ver.as_str()) {
            return Err(RegistryError::Validation);
        }
        c = c + 1;
    }
    assert(catalog_parses(reg.game_versions@));

    // Game-version resolution: the upload must target at least one known
    // game version.
    let matched = collect_matched(&reg.game_versions, manifest.game_version_req.as_str());
    if matched.len() == 0 {
        return Err(RegistryError::Validation);
    }
    proof {
        lemma_filter_distinct_ids(
            reg.game_versions@,
            gv_match_pred(manifest.game_version_req@),
        );
        assert forall|i: int| 0 <= i < matched@.len() implies (#[trigger] matched@[i]).id
            < reg.next_id by {
            assert(reg.game_versions@.contains(matched@[i]));
            let w = choose|w: int|
                0 <= w < reg.game_versions@.len() && reg.game_versions@[w] == matched@[i];
            assert(reg.game_versions@[w].id < reg.next_id);
        }
    }

    // Mod existence check: reuse the row for a known slug, create otherwise.
    match reg.find_mod_by_slug(manifest.slug.as_str()) {
        Some(mi) => {
            let mid = reg.mods[mi].id;
            proof {
                assert(reg.has_slug(manifest.slug@));
                let ci = choose|i: int|
                    0 <= i < reg.mods@.len() && (#[trigger] reg.mods@[i]).slug@ == manifest.slug@;
                assert(reg.mods@[mi as int].slug@ == manifest.slug@);
                if ci < mi as int {
                    assert(reg.mods@[ci].slug@ != reg.mods@[mi as int].slug@);
                    assert(false);
                } else if ci > mi as int {
                    assert(reg.mods@[mi as int].slug@ != reg.mods@[ci].slug@);
                    assert(false);
                }
                assert(mod_with_slug(reg.mods@, manifest.slug@) == reg.mods@[mi as int]);
            }
            // Validation: the version strings the entry matching will read
            // must parse.
            let mut pv: usize = 0;
            while pv < reg.versions.len()
                invariant
                    pv <= reg.versions@.len(),
                    forall|j: int|
                        0 <= j < pv && (#[trigger] reg.versions@[j]).mod_id == mid
                            ==> ver_parse_ok(reg.versions@[j].version@),
                decreases reg.versions@.len() - pv,
            {
                if reg.versions[pv].mod_id == mid && !check_version(
                    reg.versions[pv].version.as_str(),
                ) {
                    return Err(RegistryError::Validation);
                }
                pv = pv + 1;
            }
            assert(mod_versions_parse(reg.versions@, mid));

            let conflict_targets = collect_edge_targets(&reg.versions, mid, &manifest.conflicts);
            let depend_targets = collect_edge_targets(&reg.versions, mid, &manifest.depends);
            if has_duplicate_u64(&conflict_targets) {
                return Err(RegistryError::Internal);
            }
            if has_duplicate_u64(&depend_targets) {
                return Err(RegistryError::Internal);
            }
            let additions = collect_mod_gv_additions(reg, mid, &matched);
            proof {
                lemma_mod_gv_additions_props(reg.mod_game_versions@, mid, matched@);
                lemma_edge_targets_bounded(reg.versions@, mid, manifest.conflicts@, reg.next_id);
                lemma_edge_targets_bounded(reg.versions@, mid, manifest.depends@, reg.next_id);
                assert forall|kk: int|
                    0 <= kk < additions@.len() implies (
                #[trigger] additions@[kk]).game_version_id < reg.next_id by {
                    let w = choose|i: int|
                        0 <= i < matched@.len() && (#[trigger] matched@[i]).id
                            == additions@[kk].game_version_id;
                    assert(matched@[w].id < reg.next_id);
                }
            }

            // Commit.
            let ghost o = *reg;
            assert(o == *old(reg));
            let vstats_id = reg.next_id;
            let vid = vstats_id + 1;
            reg.version_stats.push(StatsRow { id: vstats_id, downloads: 0 });
            let url = download_url(base_url, manifest.slug.as_str(), manifest.version.as_str());
            reg.versions.push(
                VersionRow {
                    id: vid,
                    mod_id: mid,
                    version: manifest.version.clone(),
                    approved: false,
                    stats: vstats_id,
                    artifact_hash: compute_digest(artifact),
                    download_url: url,
                    created_at: now,
                },
            );
            reg.mod_versions.push(ModVersionRow { mod_id: mid, version_id: vid });
            reg.next_id = vid + 1;
            append_rows(&mut reg.mod_game_versions, &additions);
            push_version_gvs(&mut reg.version_game_versions, vid, &matched);
            push_edges(&mut reg.version_conflicts, vid, &conflict_targets);
            push_edges(&mut reg.version_dependents, vid, &depend_targets);

            proof {
                lemma_ingest_commit_wf(
                    o,
                    *reg,
                    mid,
                    vid,
                    additions@,
                    version_gv_rows(vid, matched@),
                    edge_rows(vid, conflict_targets@),
                    edge_rows(vid, depend_targets@),
                    conflict_targets@,
                    depend_targets@,
                    matched@,
                );
                assert(reg.versions@.drop_last() =~= o.versions@);
            }
            Ok(vid)
        },
        None => {
            proof {
                let wu = choose|i: int|
                    0 <= i < reg.users@.len() && (#[trigger] reg.users@[i]).id == uploader;
                assert(reg.users@[wu].id < reg.next_id);
            }
            let fresh_mid = reg.next_id + 1;
            let additions = collect_mod_gv_additions(reg, fresh_mid, &matched);
            proof {
                lemma_mod_gv_additions_props(reg.mod_game_versions@, fresh_mid, matched@);
                assert forall|kk: int|
                    0 <= kk < additions@.len() implies (
                #[trigger] additions@[kk]).game_version_id < reg.next_id by {
                    let w = choose|i: int|
                        0 <= i < matched@.len() && (#[trigger] matched@[i]).id
                            == additions@[kk].game_version_id;
                    assert(matched@[w].id < reg.next_id);
                }
            }

            // Commit.
            let ghost o = *reg;
            assert(o == *old(reg));
            let mstats_id = reg.next_id;
            let mid = mstats_id + 1;
            let vstats_id = mstats_id + 2;
            let vid = mstats_id + 3;
            reg.mod_stats.push(StatsRow { id: mstats_id, downloads: 0 });
            reg.mods.push(
                ModRow {
                    id: mid,
                    slug: manifest.slug.clone(),
                    name: manifest.name.clone(),
                    description: Some(manifest.description.clone()),
                    icon: None,
                    cover: None,
                    website: Some(manifest.website.clone()),
                    author: uploader,
                    category: cat_id,
                    stats: mstats_id,
                    created_at: now,
                    updated_at: now,
                },
            );
            reg.user_mods.push(UserModRow { user_id: uploader, mod_id: mid });
            reg.version_stats.push(StatsRow { id: vstats_id, downloads: 0 });
            let url = download_url(base_url, manifest.slug.as_str(), manifest.version.as_str());
            reg.versions.push(
                VersionRow {
                    id: vid,
                    mod_id: mid,
                    version: manifest.version.clone(),
                    approved: false,
                    stats: vstats_id,
                    artifact_hash: compute_digest(artifact),
                    download_url: url,
                    created_at: now,
                },
            );
            reg.mod_versions.push(ModVersionRow { mod_id: mid, version_id: vid });
            reg.next_id = mstats_id + 4;
            append_rows(&mut reg.mod_game_versions, &additions);
            push_version_gvs(&mut reg.version_game_versions, vid, &matched);

            proof {
                assert forall|i: int| 0 <= i < o.versions@.len() implies (
                #[trigger] o.versions@[i]).mod_id != mid by {
                    assert(o.versions@[i].mod_id < o.next_id);
                }
                lemma_edge_targets_absent(o.versions@, mid, manifest.conflicts@);
                lemma_edge_targets_absent(o.versions@, mid, manifest.depends@);
                assert(edge_rows(vid, edge_targets(o.versions@, mid, manifest.conflicts@)) =~= Seq::<
                    VersionEdgeRow,
                >::empty());
                assert(edge_rows(vid, edge_targets(o.versions@, mid, manifest.depends@)) =~= Seq::<
                    VersionEdgeRow,
                >::empty());
                assert(reg.version_conflicts@ =~= o.version_conflicts@ + edge_rows(
                    vid,
                    edge_targets(o.versions@, mid, manifest.conflicts@),
                ));
                assert(reg.version_dependents@ =~= o.version_dependents@ + edge_rows(
                    vid,
                    edge_targets(o.versions@, mid, manifest.depends@),
                ));
                lemma_ingest_create_wf(o, *reg, mid, vid, uploader, additions@, version_gv_rows(vid, matched@), matched@);
                assert(reg.versions@.drop_last() =~= o.versions@);
                assert(reg.mods@.drop_last() =~= o.mods@);
            }
            Ok(vid)
        },
    }
}

} // verus!
