//! Tests of the capability check, the session claims, and the credential
//! classification.

use forge_registry::auth::{
    validate_permissions, Authorization, JWTAuth, PERMISSION_CREATE_MOD, PERMISSION_VIEW_OTHER,
    PERMISSION_VIEW_SELF,
};
use forge_registry::store::Registry;
use forge_registry::users::{upsert_github_user, GithubUser};

fn user_with_permissions(reg: &mut Registry, bits: i32, api_key: u128) -> u64 {
    reg.add_user(
        7,
        String::from("bob"),
        Some(String::from("Bob")),
        String::from("bob@example.com"),
        None,
        None,
        None,
        bits,
        api_key,
        500,
    )
}

#[test]
fn permission_check_is_any_bit_overlap() {
    let mut reg = Registry::new();
    let id = user_with_permissions(&mut reg, 7, 1);
    let user = reg.find_user_by_id(id).unwrap();
    assert!(validate_permissions(user, PERMISSION_CREATE_MOD));
    assert!(validate_permissions(user, PERMISSION_VIEW_SELF));
    assert!(!validate_permissions(user, PERMISSION_VIEW_OTHER));
    // Any overlapping bit grants the combination.
    assert!(validate_permissions(user, PERMISSION_CREATE_MOD | PERMISSION_VIEW_OTHER));
}

#[test]
fn session_claims_expire_after_one_day() {
    let claims = JWTAuth::new(9, 1_000_000);
    assert_eq!(claims.user_id, 9);
    assert_eq!(claims.iat, 1_000_000);
    assert_eq!(claims.exp, 1_000_000 + 86_400);
    assert!(claims.is_valid(1_000_000));
    assert!(claims.is_valid(1_086_399));
    assert!(!claims.is_valid(1_086_400));
    assert!(!claims.is_valid(2_000_000));
}

#[test]
fn credential_classification() {
    // A UUID string is an API key, carried as its 128-bit value.
    let r = Authorization::parse(Some(String::from("00000000-0000-0000-0000-000000000001")));
    match r {
        Authorization::ApiKey(v) => assert_eq!(v, 1),
        _ => panic!("a UUID string should classify as an API key"),
    }
    let r = Authorization::parse(Some(String::from("a1a2a3a4-b1b2-c1c2-d1d2-d3d4d5d6d7d8")));
    match r {
        Authorization::ApiKey(v) => assert_eq!(v, 0xa1a2a3a4b1b2c1c2d1d2d3d4d5d6d7d8),
        _ => panic!("a UUID string should classify as an API key"),
    }

    // Any other string is a session token.
    let r = Authorization::parse(Some(String::from("definitely.a.jwt")));
    match r {
        Authorization::Session(s) => assert_eq!(s, "definitely.a.jwt"),
        _ => panic!("a non-UUID string should classify as a session token"),
    }

    // No credential at all.
    assert!(matches!(Authorization::parse(None), Authorization::Anonymous));
}

#[test]
fn credential_resolution_to_a_user() {
    let mut reg = Registry::new();
    let id = user_with_permissions(&mut reg, 7, 0xabc);

    // An API key resolves by lookup.
    let by_key = Authorization::ApiKey(0xabc);
    assert_eq!(by_key.get_user(&reg, None, 1000).unwrap().id, id);
    assert!(Authorization::ApiKey(0xdef).get_user(&reg, None, 1000).is_none());

    // A session resolves through valid claims naming a known user.
    let session = Authorization::Session(String::from("opaque-token"));
    let claims = JWTAuth::new(id, 1000);
    assert_eq!(session.get_user(&reg, Some(&claims), 1000).unwrap().id, id);
    // Expired claims resolve to no user.
    assert!(session.get_user(&reg, Some(&claims), 1000 + 86_400).is_none());
    // Claims naming an unknown user resolve to no user.
    let stray = JWTAuth::new(9999, 1000);
    assert!(session.get_user(&reg, Some(&stray), 1000).is_none());
    // A session whose token did not decode resolves to no user.
    assert!(session.get_user(&reg, None, 1000).is_none());

    // Anonymous resolves to no user, claims or not.
    assert!(Authorization::Anonymous.get_user(&reg, Some(&claims), 1000).is_none());
}

#[test]
fn api_key_lookup_finds_the_user() {
    let mut reg = Registry::new();
    let id = user_with_permissions(&mut reg, 7, 0xfeed);
    let found = reg.find_user_by_api_key(0xfeed).expect("key should resolve");
    assert_eq!(found.id, id);
    assert!(reg.find_user_by_api_key(0xbeef).is_none());
}

#[test]
fn github_sign_in_creates_then_reuses() {
    let mut reg = Registry::new();
    let gh = GithubUser {
        avatar_url: String::from("https://avatars.example/1"),
        bio: String::from("hi"),
        blog: String::from(""),
        email: String::from("carol@example.com"),
        id: 314,
        login: String::from("carol"),
        name: None,
        twitter_username: String::from(""),
        updated_at: 0,
        url: String::from("https://github.example/carol"),
    };
    let first = upsert_github_user(&mut reg, &gh, 11, 100);
    assert_eq!(reg.users.len(), 1);
    assert_eq!(reg.users[0].username, "carol");
    assert_eq!(reg.users[0].permissions, 7);
    assert_eq!(reg.users[0].api_key, 11);

    // Signing in again finds the same row and creates nothing.
    let second = upsert_github_user(&mut reg, &gh, 999, 200);
    assert_eq!(first, second);
    assert_eq!(reg.users.len(), 1);
    assert_eq!(reg.users[0].api_key, 11);
}
