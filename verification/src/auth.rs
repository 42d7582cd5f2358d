//! Authentication and capability checking: the permission bit set carried
//! by every user, the claims of a session token, and the two shapes a
//! bearer credential can take.

use vstd::prelude::*;

use crate::store::{Registry, UserRow};

verus! {

/// Permission bits, one per capability.
pub const PERMISSION_VIEW_SELF: i32 = 1;

pub const PERMISSION_EDIT_SELF: i32 = 2;

pub const PERMISSION_CREATE_MOD: i32 = 4;

pub const PERMISSION_EDIT_MOD: i32 = 8;

pub const PERMISSION_APPROVE_MOD: i32 = 16;

pub const PERMISSION_EDIT_OTHER_USERS: i32 = 32;

pub const PERMISSION_EDIT_OTHER_MODS: i32 = 64;

pub const PERMISSION_VIEW_OTHER: i32 = 128;

/// Anything that carries a permission bit set.
pub trait HasPermissions {
    /// The bit set, as specification.
    spec fn spec_permissions(&self) -> i32;

    /// The bit set.
    fn permissions(&self) -> (r: i32)
        ensures
            r == self.spec_permissions(),
    ;
}

impl HasPermissions for UserRow {
    open spec fn spec_permissions(&self) -> i32 {
        self.permissions
    }

    fn permissions(&self) -> (r: i32) {
        self.permissions
    }
}

/// A holder of `required` is anyone whose bit set meets it anywhere.
pub open spec fn spec_has_permission(bits: i32, required: i32) -> bool {
    bits & required != 0
}

/// Capability check at the API boundary: whether the user holds any of the
/// required permission bits.
pub fn validate_permissions<T: HasPermissions>(user: &T, required: i32) -> (r: bool)
    ensures
        r == spec_has_permission(user.spec_permissions(), required),
{
    user.permissions() & required != 0
}

/// The signing key for session tokens, loaded once at startup.
#[derive(Clone, Copy)]
pub struct Key(pub [u8; 1024]);

/// The claims of a session token: the user it names, when it was issued,
/// and when it expires.
pub struct JWTAuth {
    pub user_id: u64,
    pub exp: i64,
    pub iat: i64,
}

/// How long a session token lives, in seconds: one day.
pub const SESSION_LIFETIME_SECONDS: i64 = 86400;

impl JWTAuth {
    /// Fresh claims for a user, issued at `now` and valid for one day.
    pub fn new(user_id: u64, now: i64) -> (r: JWTAuth)
        requires
            now <= i64::MAX - SESSION_LIFETIME_SECONDS,
        ensures
            r.user_id == user_id,
            r.iat == now,
            r.exp == now + SESSION_LIFETIME_SECONDS,
    {
        JWTAuth { user_id, exp: now + SESSION_LIFETIME_SECONDS, iat: now }
    }

    /// Claims are valid while their expiry lies in the future.
    pub fn is_valid(&self, now: i64) -> (r: bool)
        ensures
            r == (self.exp > now),
    {
        self.exp > now
    }
}

/// What `uuid::Uuid::parse_str` makes of this string: the 128-bit value of
/// the UUID it denotes, or nothing. The result depends on the characters of
/// the string alone.
pub uninterp spec fn uuid_of(s: Seq<char>) -> Option<u128>;

/// Relies on uuid::Uuid::parse_str and uuid::Uuid::as_u128: parses a string
/// of hexadecimal digits with optional hyphens into the 128-bit value it
/// denotes.
#[verifier::external_body]
fn parse_uuid(s: &str) -> (r: Option<u128>)
    ensures
        r == uuid_of(s@),
{
    match uuid::Uuid::parse_str(s) {
        Ok(u) => Some(u.as_u128()),
        Err(_) => None,
    }
}

/// A bearer credential: a session token, an API key, or nothing.
pub enum Authorization {
    Session(String),
    ApiKey(u128),
    Anonymous,
}

impl Authorization {
    /// Classifies a credential string: a string that denotes a UUID is an
    /// API key, any other string is a session token, and no string at all
    /// is anonymous.
    pub fn parse(s: Option<String>) -> (r: Authorization)
        ensures
            match s {
                Option::None => r is Anonymous,
                Option::Some(t) => match uuid_of(t@) {
                    Option::Some(u) => r == Authorization::ApiKey(u),
                    Option::None => r == Authorization::Session(t),
                },
            },
    {
        match s {
            Option::Some(t) => match parse_uuid(t.as_str()) {
                Option::Some(u) => Authorization::ApiKey(u),
                Option::None => Authorization::Session(t),
            },
            Option::None => Authorization::Anonymous,
        }
    }
}

impl Authorization {
    /// The user this credential names. A session token resolves through its
    /// claims — checked for expiry, with their signature checked by the
    /// caller when it decoded them — and an API key resolves by lookup. An
    /// unknown or expired identity resolves to no user.
    pub fn get_user<'a>(
        &self,
        reg: &'a Registry,
        session: Option<&JWTAuth>,
        now: i64,
    ) -> (r: Option<&'a UserRow>)
        requires
            reg.wf(),
        ensures
            match self {
                Authorization::Session(_) => match session {
                    Option::Some(c) => {
                        if c.exp > now && reg.has_user(c.user_id) {
                            r matches Some(u) && *u == reg.user_with_id(c.user_id)
                        } else {
                            r is None
                        }
                    },
                    Option::None => r is None,
                },
                Authorization::ApiKey(k) => match r {
                    Option::Some(u) => exists|i: int|
                        0 <= i < reg.users@.len() && (#[trigger] reg.users@[i]).api_key == k
                            && reg.users@[i] == *u,
                    Option::None => forall|i: int|
                        0 <= i < reg.users@.len() ==> (#[trigger] reg.users@[i]).api_key != k,
                },
                Authorization::Anonymous => r is None,
            },
    {
        match self {
            Authorization::Session(_) => match session {
                Some(claims) => {
                    if claims.is_valid(now) {
                        reg.find_user_by_id(claims.user_id)
                    } else {
                        None
                    }
                },
                None => None,
            },
            Authorization::ApiKey(k) => reg.find_user_by_api_key(*k),
            Authorization::Anonymous => None,
        }
    }
}

/// The body of the authentication endpoint's request: the OAuth exchange
/// code handed back by GitHub.
pub struct UserAuthReq {
    pub code: String,
}

} // verus!
