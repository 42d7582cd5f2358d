//! Tests of the query layer: views, pagination, the page-limit check,
//! redaction, the seeded vocabulary, and download resolution.

use forge_registry::ingest::{ingest, Manifest};
use forge_registry::schema::QueryRoot;
use forge_registry::seed::seeded_registry;
use forge_registry::store::Registry;
use forge_registry::RegistryError;

fn registry_with_mod() -> (Registry, u64, u64) {
    let mut reg = Registry::new();
    reg.add_category(String::from("gameplay"), String::from("Mods that affect gameplay."));
    reg.add_category(
        String::from("other"),
        String::from("Mods that do not fit into other categories."),
    );
    reg.add_game_version(String::from("1.20.0"));
    reg.add_game_version(String::from("1.31.0"));
    let uploader = reg.add_user(
        42,
        String::from("alice"),
        None,
        String::from("alice@example.com"),
        None,
        None,
        None,
        7,
        1,
        1000,
    );
    let m = Manifest {
        slug: String::from("foo"),
        name: String::from("Foo"),
        description: String::from("a mod"),
        website: String::from("https://example.com"),
        category: String::from("gameplay"),
        version: String::from("1.0.0"),
        game_version_req: String::from(">=1.20.0"),
        depends: Vec::new(),
        conflicts: Vec::new(),
    };
    let vid = ingest(&mut reg, &m, b"artifact-bytes", uploader, "https://cdn.example", 2000).expect("upload");
    (reg, uploader, vid)
}

#[test]
fn mod_view_joins_its_rows() {
    let (reg, _, vid) = registry_with_mod();
    let m = forge_registry::mods::find_by_slug(&reg, "foo").expect("mod should be found");
    assert_eq!(m.slug, "foo");
    assert_eq!(m.name, "Foo");
    assert_eq!(m.category.name, "gameplay");
    assert_eq!(m.author.username, "alice");
    assert_eq!(m.stats.downloads, 0);
    assert_eq!(m.versions.len(), 1);
    assert_eq!(m.versions[0].id, vid);
    assert_eq!(m.versions[0].version, "1.0.0");
    assert_eq!(m.versions[0].stats.downloads, 0);
    let mut supported = m.versions[0].supported_game_versions.clone();
    supported.sort();
    assert_eq!(supported, vec![String::from("1.20.0"), String::from("1.31.0")]);

    let by_id = forge_registry::mods::find_by_id(&reg, m.id).expect("by id");
    assert_eq!(by_id.slug, "foo");

    assert!(matches!(
        forge_registry::mods::find_by_id(&reg, 9999),
        Err(RegistryError::NotFound)
    ));
    assert!(matches!(
        forge_registry::mods::find_by_slug(&reg, "missing"),
        Err(RegistryError::NotFound)
    ));
}

#[test]
fn listing_pages_and_filters() {
    let (reg, _, _) = registry_with_mod();
    let all = forge_registry::mods::find_all(&reg, 10, 0, None).expect("page");
    assert_eq!(all.len(), 1);
    let none = forge_registry::mods::find_all(&reg, 10, 5, None).expect("page past the end");
    assert_eq!(none.len(), 0);

    let filtered =
        forge_registry::mods::find_all(&reg, 10, 0, Some(String::from("1.20.0"))).expect("filter");
    assert_eq!(filtered.len(), 1);
    assert_eq!(filtered[0].slug, "foo");

    assert!(matches!(
        forge_registry::mods::find_all(&reg, 10, 0, Some(String::from("9.9.9"))),
        Err(RegistryError::NotFound)
    ));
}

#[test]
fn query_root_rejects_large_limits() {
    let (reg, _, _) = registry_with_mod();
    assert!(matches!(
        QueryRoot::mods(&reg, Some(11), None, None),
        Err(RegistryError::Validation)
    ));
    match QueryRoot::users(&reg, Some(11), None, None) {
        Err(RegistryError::Validation) => {},
        _ => panic!("a limit over the maximum must be rejected"),
    }
    let ok = QueryRoot::mods(&reg, Some(10), None, None).expect("limit at the maximum");
    assert_eq!(ok.len(), 1);
}

#[test]
fn private_fields_are_redacted() {
    let (reg, alice, _) = registry_with_mod();
    // Anonymous listing: everything private is hidden.
    let listed = QueryRoot::users(&reg, None, None, None).expect("listing");
    assert_eq!(listed.len(), 1);
    assert_eq!(listed[0].email, None);
    assert_eq!(listed[0].api_key, None);

    // The user sees their own private fields.
    let own = QueryRoot::user_by_id(&reg, alice, Some(alice)).expect("own view");
    assert_eq!(own.email, Some(String::from("alice@example.com")));
    assert_eq!(own.api_key, Some(1));
    assert_eq!(own.mods.len(), 1);

    // Another viewer does not, since alice's row lacks the view-other bit.
    let mut reg2 = reg;
    let bob = reg2.add_user(
        43,
        String::from("bob"),
        None,
        String::from("bob@example.com"),
        None,
        None,
        None,
        7,
        2,
        1000,
    );
    let seen = QueryRoot::user_by_id(&reg2, alice, Some(bob)).expect("view");
    assert_eq!(seen.email, None);
    assert_eq!(seen.api_key, None);
}

#[test]
fn user_listing_pages() {
    let (mut reg, _, _) = registry_with_mod();
    for n in 0..3 {
        reg.add_user(
            100 + n,
            format!("user{}", n),
            None,
            format!("user{}@example.com", n),
            None,
            None,
            None,
            7,
            100 + n as u128,
            1000,
        );
    }
    // alice plus three more users: four rows, windowed.
    let all = forge_registry::users::find_all(&reg, 10, 0, None).expect("listing");
    assert_eq!(all.len(), 4);
    let middle = forge_registry::users::find_all(&reg, 2, 1, None).expect("window");
    assert_eq!(middle.len(), 2);
    assert_eq!(middle[0].username, "user0");
    assert_eq!(middle[1].username, "user1");
    let tail = forge_registry::users::find_all(&reg, 10, 3, None).expect("tail");
    assert_eq!(tail.len(), 1);
    let past = forge_registry::users::find_all(&reg, 10, 99, None).expect("past the end");
    assert_eq!(past.len(), 0);
}

#[test]
fn seeded_vocabulary() {
    let reg = seeded_registry();
    let cats = QueryRoot::categories(&reg);
    assert_eq!(cats.len(), 14);
    assert_eq!(cats[0].name, "core");
    assert_eq!(cats[13].name, "other");
    let vers = QueryRoot::beat_saber_versions(&reg);
    assert_eq!(vers.len(), 73);
    assert_eq!(vers[0], "0.10.1");
    assert_eq!(vers[72], "1.31.0");

    // An unrecognized category resolves to the fallback.
    let i = forge_registry::ingest::resolve_category(&reg, "bogus").expect("fallback");
    assert_eq!(reg.categories[i].name, "other");
    // A recognized one resolves to itself.
    let j = forge_registry::ingest::resolve_category(&reg, "lighting").expect("declared");
    assert_eq!(reg.categories[j].name, "lighting");
}

#[test]
fn download_resolution() {
    let (reg, _, vid) = registry_with_mod();
    let (mid, got_vid) =
        forge_registry::cdn::resolve_download(&reg, "foo", "1.0.0").expect("resolves");
    assert_eq!(mid, reg.mods[0].id);
    assert_eq!(got_vid, vid);
    assert_eq!(
        forge_registry::cdn::resolve_download(&reg, "foo", "9.9.9"),
        Err(RegistryError::NotFound)
    );
    assert_eq!(
        forge_registry::cdn::resolve_download(&reg, "bar", "1.0.0"),
        Err(RegistryError::NotFound)
    );
}
