//! Tests of the semantic-version boundary: parsing checks and requirement
//! matching as the `semver` crate evaluates them.

use forge_registry::semver_ext::{check_req, matches_version};

#[test]
fn requirement_parsing() {
    assert!(check_req("^1.0"));
    assert!(check_req(">=1.20.0"));
    assert!(check_req("*"));
    assert!(check_req(">=1.0.0, <2.0.0"));
    assert!(!check_req(">>> nonsense <<<"));
    assert!(!check_req("@1.0.0"));
}

#[test]
fn version_strings_must_parse_to_match() {
    // A version string the crate rejects satisfies no requirement at all.
    assert!(!matches_version("*", "1.0"));
    assert!(!matches_version("*", "1.0.01"));
    assert!(matches_version("*", "1.0.1"));
}

#[test]
fn requirement_matching() {
    assert!(matches_version(">=1.20.0", "1.20.0"));
    assert!(matches_version(">=1.20.0", "1.31.0"));
    assert!(!matches_version(">=1.20.0", "1.19.1"));
    assert!(matches_version("^1.0", "1.9.3"));
    assert!(!matches_version("^1.0", "2.0.0"));
    assert!(matches_version("*", "1.0.0"));
    // A requirement without an explicit pre-release never admits one.
    assert!(!matches_version("*", "1.0.0-b1"));
    // Nothing matches when either side does not parse.
    assert!(!matches_version("bogus req", "1.0.0"));
    assert!(!matches_version(">=1.0.0", "bogus version"));
}

#[test]
fn download_location_template() {
    let url = forge_registry::ingest::download_url("https://cdn.example", "foo", "1.0.0");
    assert_eq!(url, "https://cdn.example/cdn/foo@1.0.0");
}
