//! Tests of the ingestion transaction: category resolution, game-version
//! matching, idempotent associations, atomicity, and dependency edges.

use forge_registry::ingest::{ingest, DependencyDecl, Manifest};
use forge_registry::store::Registry;
use forge_registry::RegistryError;

fn catalog_registry() -> Registry {
    let mut reg = Registry::new();
    reg.add_category(String::from("gameplay"), String::from("Mods that affect gameplay."));
    reg.add_category(
        String::from("other"),
        String::from("Mods that do not fit into other categories."),
    );
    reg.add_game_version(String::from("1.20.0"));
    reg.add_game_version(String::from("1.31.0"));
    reg
}

fn add_uploader(reg: &mut Registry) -> u64 {
    reg.add_user(
        42,
        String::from("alice"),
        None,
        String::from("alice@example.com"),
        None,
        None,
        None,
        7,
        7,
        1000,
    )
}

fn manifest(slug: &str, version: &str, category: &str, req: &str) -> Manifest {
    Manifest {
        slug: String::from(slug),
        name: String::from(slug),
        description: String::from("a mod"),
        website: String::from("https://example.com"),
        category: String::from(category),
        version: String::from(version),
        game_version_req: String::from(req),
        depends: Vec::new(),
        conflicts: Vec::new(),
    }
}

#[test]
fn end_to_end_upload_with_unknown_category() {
    let mut reg = catalog_registry();
    let uploader = add_uploader(&mut reg);
    let m = manifest("foo", "1.0.0", "bogus", ">=1.20.0");
    let r = ingest(&mut reg, &m, b"artifact-bytes", uploader, "https://cdn.example", 2000);
    let vid = r.expect("upload should succeed");

    // One mod, in the fallback category.
    assert_eq!(reg.mods.len(), 1);
    assert_eq!(reg.mods[0].slug, "foo");
    let other_id = reg.categories[1].id;
    assert_eq!(reg.categories[1].name, "other");
    assert_eq!(reg.mods[0].category, other_id);

    // One version with the templated download location.
    assert_eq!(reg.versions.len(), 1);
    assert_eq!(reg.versions[0].id, vid);
    assert_eq!(reg.versions[0].version, "1.0.0");
    assert!(!reg.versions[0].approved);
    assert_eq!(reg.versions[0].download_url, "https://cdn.example/cdn/foo@1.0.0");

    // Both catalog versions satisfy >=1.20.0: two rows per association.
    assert_eq!(reg.mod_game_versions.len(), 2);
    assert_eq!(reg.version_game_versions.len(), 2);
    let gv_ids: Vec<u64> = reg.game_versions.iter().map(|g| g.id).collect();
    for row in &reg.mod_game_versions {
        assert_eq!(row.mod_id, reg.mods[0].id);
        assert!(gv_ids.contains(&row.game_version_id));
    }
    for row in &reg.version_game_versions {
        assert_eq!(row.version_id, vid);
        assert!(gv_ids.contains(&row.game_version_id));
    }

    // Ownership and membership rows.
    assert_eq!(reg.user_mods.len(), 1);
    assert_eq!(reg.user_mods[0].user_id, uploader);
    assert_eq!(reg.mod_versions.len(), 1);

    // Zeroed stats rows on both levels.
    assert_eq!(reg.mod_stats.len(), 1);
    assert_eq!(reg.mod_stats[0].downloads, 0);
    assert_eq!(reg.version_stats.len(), 1);
    assert_eq!(reg.version_stats[0].downloads, 0);

    // The search document names the fallback category.
    let cat_idx = forge_registry::ingest::resolve_category(&reg, "bogus").unwrap();
    let cat_name = reg.categories[cat_idx].name.clone();
    let uploader_row = reg.find_user_by_id(uploader).unwrap();
    let doc =
        forge_registry::search::build_search_doc(&reg, reg.mods[0].id, &cat_name, uploader_row)
            .expect("search document should build");
    assert_eq!(doc.category, "other");
    assert_eq!(doc.author.username, "alice");
    assert_eq!(doc.author.display_name, "alice");
    assert_eq!(doc.versions.len(), 1);
    assert_eq!(doc.versions[0].version, "1.0.0");
    assert_eq!(doc.supported_versions.len(), 2);
}

#[test]
fn recognized_category_is_kept() {
    let mut reg = catalog_registry();
    let uploader = add_uploader(&mut reg);
    let m = manifest("foo", "1.0.0", "gameplay", ">=1.20.0");
    ingest(&mut reg, &m, b"artifact-bytes", uploader, "https://cdn.example", 2000).expect("upload should succeed");
    assert_eq!(reg.categories[0].name, "gameplay");
    assert_eq!(reg.mods[0].category, reg.categories[0].id);
}

#[test]
fn no_matching_game_version_is_rejected() {
    let mut reg = catalog_registry();
    let uploader = add_uploader(&mut reg);
    let next_id_before = reg.next_id;
    let m = manifest("foo", "1.0.0", "gameplay", ">=99.0.0");
    let r = ingest(&mut reg, &m, b"artifact-bytes", uploader, "https://cdn.example", 2000);
    assert_eq!(r, Err(RegistryError::Validation));
    // No rows were created.
    assert_eq!(reg.mods.len(), 0);
    assert_eq!(reg.versions.len(), 0);
    assert_eq!(reg.mod_game_versions.len(), 0);
    assert_eq!(reg.version_game_versions.len(), 0);
    assert_eq!(reg.mod_stats.len(), 0);
    assert_eq!(reg.version_stats.len(), 0);
    assert_eq!(reg.user_mods.len(), 0);
    assert_eq!(reg.next_id, next_id_before);
}

#[test]
fn malformed_manifest_version_is_rejected() {
    let mut reg = catalog_registry();
    let uploader = add_uploader(&mut reg);
    // "1.0" is not a full semantic version.
    let m = manifest("foo", "1.0", "gameplay", ">=1.20.0");
    assert_eq!(
        ingest(&mut reg, &m, b"artifact-bytes", uploader, "https://cdn.example", 2000),
        Err(RegistryError::Validation)
    );
    assert_eq!(reg.mods.len(), 0);
    assert_eq!(reg.versions.len(), 0);
}

#[test]
fn malformed_catalog_version_is_rejected() {
    let mut reg = catalog_registry();
    reg.add_game_version(String::from("not a version"));
    let uploader = add_uploader(&mut reg);
    let m = manifest("foo", "1.0.0", "gameplay", ">=1.20.0");
    assert_eq!(
        ingest(&mut reg, &m, b"artifact-bytes", uploader, "https://cdn.example", 2000),
        Err(RegistryError::Validation)
    );
    assert_eq!(reg.mods.len(), 0);
}

#[test]
fn malformed_stored_version_is_rejected() {
    let mut reg = catalog_registry();
    let uploader = add_uploader(&mut reg);
    let m1 = manifest("foo", "1.0.0", "gameplay", ">=1.20.0");
    ingest(&mut reg, &m1, b"artifact-bytes", uploader, "https://cdn.example", 2000)
        .expect("first upload");

    // A stored version row whose string is not semver: entry matching would
    // have to parse it, so a second upload of the slug is a validation error.
    let stray_id = reg.next_id;
    reg.versions.push(forge_registry::store::VersionRow {
        id: stray_id,
        mod_id: reg.mods[0].id,
        version: String::from("garbage"),
        approved: false,
        stats: reg.versions[0].stats,
        artifact_hash: String::new(),
        download_url: String::new(),
        created_at: 0,
    });
    reg.next_id = stray_id + 1;

    let m2 = manifest("foo", "2.0.0", "gameplay", ">=1.20.0");
    let versions_before = reg.versions.len();
    assert_eq!(
        ingest(&mut reg, &m2, b"artifact-bytes", uploader, "https://cdn.example", 3000),
        Err(RegistryError::Validation)
    );
    assert_eq!(reg.versions.len(), versions_before);
}

#[test]
fn artifact_hash_is_the_digest_of_the_bytes() {
    let mut reg = catalog_registry();
    let uploader = add_uploader(&mut reg);
    let m = manifest("foo", "1.0.0", "gameplay", ">=1.20.0");
    ingest(&mut reg, &m, b"hello", uploader, "https://cdn.example", 2000).expect("upload");
    // SHA-256 of the five bytes "hello", in lowercase hex.
    assert_eq!(
        reg.versions[0].artifact_hash,
        "2cf24dba5fb0a30e26e83b2ac5b9e29e1b161e5c1fa7425e73043362938b9824"
    );
}

#[test]
fn malformed_requirement_is_rejected() {
    let mut reg = catalog_registry();
    let uploader = add_uploader(&mut reg);
    let m = manifest("foo", "1.0.0", "gameplay", ">>> nonsense <<<");
    assert_eq!(
        ingest(&mut reg, &m, b"artifact-bytes", uploader, "https://cdn.example", 2000),
        Err(RegistryError::Validation)
    );
    assert_eq!(reg.mods.len(), 0);
}

#[test]
fn malformed_dependency_requirement_is_rejected() {
    let mut reg = catalog_registry();
    let uploader = add_uploader(&mut reg);
    let mut m = manifest("foo", "1.0.0", "gameplay", ">=1.20.0");
    m.depends.push(DependencyDecl {
        target: String::from("foo"),
        version_req: String::from("@@@"),
    });
    assert_eq!(
        ingest(&mut reg, &m, b"artifact-bytes", uploader, "https://cdn.example", 2000),
        Err(RegistryError::Validation)
    );
    assert_eq!(reg.mods.len(), 0);
}

#[test]
fn missing_fallback_category_is_not_found() {
    let mut reg = Registry::new();
    reg.add_category(String::from("gameplay"), String::from("Mods that affect gameplay."));
    reg.add_game_version(String::from("1.20.0"));
    let uploader = add_uploader(&mut reg);
    let m = manifest("foo", "1.0.0", "bogus", ">=1.20.0");
    assert_eq!(
        ingest(&mut reg, &m, b"artifact-bytes", uploader, "https://cdn.example", 2000),
        Err(RegistryError::NotFound)
    );
    assert_eq!(reg.mods.len(), 0);
}

#[test]
fn mod_game_version_association_is_idempotent() {
    let mut reg = catalog_registry();
    let uploader = add_uploader(&mut reg);
    let m1 = manifest("foo", "1.0.0", "gameplay", ">=1.20.0");
    ingest(&mut reg, &m1, b"artifact-bytes", uploader, "https://cdn.example", 2000).expect("first upload");
    assert_eq!(reg.mod_game_versions.len(), 2);

    // The second upload targets an overlapping set of game versions; the
    // overlapping pair is not inserted again.
    let m2 = manifest("foo", "2.0.0", "gameplay", ">=1.31.0");
    ingest(&mut reg, &m2, b"artifact-bytes", uploader, "https://cdn.example", 3000).expect("second upload");
    assert_eq!(reg.mods.len(), 1);
    assert_eq!(reg.versions.len(), 2);
    assert_eq!(reg.mod_game_versions.len(), 2);
    for i in 0..reg.mod_game_versions.len() {
        for j in 0..reg.mod_game_versions.len() {
            if i != j {
                assert!(reg.mod_game_versions[i] != reg.mod_game_versions[j]);
            }
        }
    }
    // The new version supports exactly one game version.
    let v2 = reg.versions[1].id;
    let v2_rows: Vec<_> =
        reg.version_game_versions.iter().filter(|r| r.version_id == v2).collect();
    assert_eq!(v2_rows.len(), 1);

    // Both uploads left a membership row, so the search document carries
    // both versions.
    assert_eq!(reg.mod_versions.len(), 2);
    let mid = reg.mods[0].id;
    assert!(reg.mod_versions.iter().all(|r| r.mod_id == mid));
    let member_ids: Vec<u64> = reg.mod_versions.iter().map(|r| r.version_id).collect();
    assert!(member_ids.contains(&reg.versions[0].id));
    assert!(member_ids.contains(&v2));
    let uploader_row = reg.find_user_by_id(uploader).unwrap();
    let doc = forge_registry::search::build_search_doc(&reg, mid, "gameplay", uploader_row)
        .expect("search document should build");
    assert_eq!(doc.versions.len(), 2);
    let listed: Vec<&str> = doc.versions.iter().map(|v| v.version.as_str()).collect();
    assert!(listed.contains(&"1.0.0"));
    assert!(listed.contains(&"2.0.0"));
}

#[test]
fn duplicate_edge_rolls_the_upload_back() {
    let mut reg = catalog_registry();
    let uploader = add_uploader(&mut reg);
    let m1 = manifest("foo", "1.0.0", "gameplay", ">=1.20.0");
    ingest(&mut reg, &m1, b"artifact-bytes", uploader, "https://cdn.example", 2000).expect("first upload");

    let versions_before = reg.versions.len();
    let version_stats_before = reg.version_stats.len();
    let conflicts_before = reg.version_conflicts.len();
    let next_id_before = reg.next_id;

    // Two conflict entries both match version 1.0.0, so the same edge would
    // be inserted twice: the composite key rejects it and nothing persists.
    let mut m2 = manifest("foo", "2.0.0", "gameplay", ">=1.20.0");
    m2.conflicts.push(DependencyDecl {
        target: String::from("foo"),
        version_req: String::from("*"),
    });
    m2.conflicts.push(DependencyDecl {
        target: String::from("foo"),
        version_req: String::from(">=1.0.0"),
    });
    assert_eq!(
        ingest(&mut reg, &m2, b"artifact-bytes", uploader, "https://cdn.example", 3000),
        Err(RegistryError::Internal)
    );
    assert_eq!(reg.versions.len(), versions_before);
    assert_eq!(reg.version_stats.len(), version_stats_before);
    assert_eq!(reg.version_conflicts.len(), conflicts_before);
    assert_eq!(reg.next_id, next_id_before);
}

#[test]
fn dependency_requirement_creates_edge_to_matching_version() {
    let mut reg = catalog_registry();
    let uploader = add_uploader(&mut reg);
    let m1 = manifest("foo", "1.0.0", "gameplay", ">=1.20.0");
    let v1 = ingest(&mut reg, &m1, b"artifact-bytes", uploader, "https://cdn.example", 2000).expect("first upload");

    let mut m2 = manifest("foo", "2.0.0", "gameplay", ">=1.20.0");
    m2.depends.push(DependencyDecl {
        target: String::from("foo"),
        version_req: String::from("^1.0"),
    });
    let v2 = ingest(&mut reg, &m2, b"artifact-bytes", uploader, "https://cdn.example", 3000).expect("second upload");

    assert_eq!(reg.version_dependents.len(), 1);
    assert_eq!(reg.version_dependents[0].version_id, v2);
    assert_eq!(reg.version_dependents[0].dependent, v1);
    assert_eq!(reg.version_conflicts.len(), 0);
}

#[test]
fn conflict_requirement_creates_edge_to_matching_version() {
    let mut reg = catalog_registry();
    let uploader = add_uploader(&mut reg);
    let m1 = manifest("foo", "1.0.0", "gameplay", ">=1.20.0");
    let v1 = ingest(&mut reg, &m1, b"artifact-bytes", uploader, "https://cdn.example", 2000).expect("first upload");

    let mut m2 = manifest("foo", "2.0.0", "gameplay", ">=1.20.0");
    m2.conflicts.push(DependencyDecl {
        target: String::from("foo"),
        version_req: String::from("<2.0.0"),
    });
    let v2 = ingest(&mut reg, &m2, b"artifact-bytes", uploader, "https://cdn.example", 3000).expect("second upload");

    assert_eq!(reg.version_conflicts.len(), 1);
    assert_eq!(reg.version_conflicts[0].version_id, v2);
    assert_eq!(reg.version_conflicts[0].dependent, v1);
}

#[test]
fn second_upload_keeps_author_and_category() {
    let mut reg = catalog_registry();
    let uploader = add_uploader(&mut reg);
    let m1 = manifest("foo", "1.0.0", "gameplay", ">=1.20.0");
    ingest(&mut reg, &m1, b"artifact-bytes", uploader, "https://cdn.example", 2000).expect("first upload");
    let author = reg.mods[0].author;
    let category = reg.mods[0].category;

    // The second upload declares another category; the mod row keeps the
    // one fixed at creation.
    let m2 = manifest("foo", "2.0.0", "other", ">=1.20.0");
    ingest(&mut reg, &m2, b"artifact-bytes", uploader, "https://cdn.example", 3000).expect("second upload");
    assert_eq!(reg.mods.len(), 1);
    assert_eq!(reg.mods[0].author, author);
    assert_eq!(reg.mods[0].category, category);
}
