//! The API view of users, the redaction of their private fields, and the
//! find-or-create step of the GitHub sign-in flow.

use vstd::prelude::*;

use crate::auth::{spec_has_permission, HasPermissions, PERMISSION_VIEW_OTHER};
use crate::mods::{is_mod_view, mod_view_ok, mods_of_author, Mod};
use crate::store::{duplicate_opt_string, Registry, UserRow};
use crate::RegistryError;

verus! {

/// One user, as the API presents it. The email and the API key are private:
/// they are present only when the viewer may see them.
pub struct User {
    pub id: u64,
    pub github_id: i64,
    pub username: String,
    pub display_name: Option<String>,
    pub email: Option<String>,
    pub bio: Option<String>,
    pub mods: Vec<Mod>,
    pub permissions: i32,
    pub avatar: Option<String>,
    pub banner: Option<String>,
    pub api_key: Option<u128>,
    pub created_at: i64,
    pub updated_at: i64,
}

impl HasPermissions for User {
    open spec fn spec_permissions(&self) -> i32 {
        self.permissions
    }

    fn permissions(&self) -> (r: i32) {
        self.permissions
    }
}

/// Whether the private fields of the user carrying `id` and `permissions`
/// are hidden from this viewer: they are kept for the user themselves, and
/// wherever the viewed row itself grants the view-other capability.
pub open spec fn hides_private_fields(viewer_id: u64, id: u64, permissions: i32) -> bool {
    viewer_id != id && !spec_has_permission(permissions, PERMISSION_VIEW_OTHER)
}

/// `v` presents the user row `u`, with the private fields hidden or kept
/// according to `hide`.
pub open spec fn is_user_view(reg: Registry, u: UserRow, v: User, hide: bool) -> bool {
    &&& v.id == u.id
    &&& v.github_id == u.github_id
    &&& v.username@ == u.username@
    &&& v.display_name == u.display_name
    &&& v.email == (if hide {
        Option::<String>::None
    } else {
        Some(u.email)
    })
    &&& v.bio == u.bio
    &&& v.permissions == u.permissions
    &&& v.avatar == u.avatar
    &&& v.banner == u.banner
    &&& v.api_key == (if hide {
        Option::<u128>::None
    } else {
        Some(u.api_key)
    })
    &&& v.created_at == u.created_at
    &&& v.updated_at == u.updated_at
    &&& v.mods@.len() == mods_of_author(reg.mods@, u.id).len()
    &&& forall|k: int|
        0 <= k < v.mods@.len() ==> is_mod_view(
            reg,
            mods_of_author(reg.mods@, u.id)[k],
            #[trigger] v.mods@[k],
        )
}

/// What a user row needs so that its view can be assembled: each of their
/// mods' views can be.
pub open spec fn user_view_ok(reg: Registry, u: UserRow) -> bool {
    forall|k: int|
        0 <= k < mods_of_author(reg.mods@, u.id).len() ==> mod_view_ok(
            reg,
            #[trigger] mods_of_author(reg.mods@, u.id)[k],
        )
}

/// Assembles the unredacted view of one user row. Fails with `NotFound`
/// exactly when one of the user's mods references an absent row.
fn from_db_user(reg: &Registry, u: &UserRow) -> (r: Result<User, RegistryError>)
    requires
        reg.wf(),
    ensures
        match r {
            Ok(v) => user_view_ok(*reg, *u) && is_user_view(*reg, *u, v, false),
            Err(e) => !user_view_ok(*reg, *u) && e == RegistryError::NotFound,
        },
{
    let mods = match crate::mods::find_by_author(reg, u.id) {
        Ok(m) => m,
        Err(e) => {
            return Err(e);
        },
    };
    Ok(
        User {
            id: u.id,
            github_id: u.github_id,
            username: u.username.clone(),
            display_name: duplicate_opt_string(&u.display_name),
            email: Some(u.email.clone()),
            bio: duplicate_opt_string(&u.bio),
            mods,
            permissions: u.permissions,
            avatar: duplicate_opt_string(&u.avatar),
            banner: duplicate_opt_string(&u.banner),
            api_key: Some(u.api_key),
            created_at: u.created_at,
            updated_at: u.updated_at,
        },
    )
}

/// What the lookup of one user view returns: the row's view with the
/// private fields hidden unless the viewer may see them, or `NotFound`
/// exactly when no row carries the id or its view cannot be assembled.
pub open spec fn user_view_post(
    reg: Registry,
    id: u64,
    viewer: Option<u64>,
    r: Result<User, RegistryError>,
) -> bool {
    match r {
        Ok(v) => {
            let row = reg.user_with_id(id);
            let hide = viewer matches Some(w) && hides_private_fields(
                w,
                row.id,
                row.permissions,
            );
            &&& reg.has_user(id)
            &&& user_view_ok(reg, row)
            &&& is_user_view(reg, row, v, hide)
        },
        Err(e) => {
            &&& e == RegistryError::NotFound
            &&& !reg.has_user(id) || !user_view_ok(reg, reg.user_with_id(id))
        },
    }
}

/// One user view by id, with the private fields hidden unless the viewer is
/// the user, or the viewed row grants the view-other capability.
pub fn find_by_id(reg: &Registry, id: u64, viewer: Option<u64>) -> (r: Result<
    User,
    RegistryError,
>)
    requires
        reg.wf(),
    ensures
        user_view_post(*reg, id, viewer, r),
{
    let row = match reg.find_user_by_id(id) {
        Some(u) => u,
        None => {
            return Err(RegistryError::NotFound);
        },
    };
    let mut v = match from_db_user(reg, row) {
        Ok(v) => v,
        Err(e) => {
            return Err(e);
        },
    };
    match viewer {
        Some(w) => {
            if w != v.id && !crate::auth::validate_permissions(&v, PERMISSION_VIEW_OTHER) {
                v.email = None;
                v.api_key = None;
            }
        },
        None => {},
    }
    Ok(v)
}

/// The window of the user table a listing returns.
pub open spec fn user_page_of(users: Seq<UserRow>, offset: int, limit: int) -> Seq<UserRow> {
    let start = if offset > users.len() {
        users.len() as int
    } else {
        offset
    };
    let avail = users.len() - start;
    let take = if limit > avail {
        avail
    } else {
        limit
    };
    users.subrange(start, start + take)
}

/// What a listing of users returns: the requested window of the user table,
/// each row's view redacted for this viewer, or `NotFound` exactly when
/// some listed view cannot be assembled.
pub open spec fn users_listing_post(
    reg: Registry,
    limit: int,
    offset: int,
    viewer: Option<u64>,
    r: Result<Vec<User>, RegistryError>,
) -> bool {
    match r {
        Ok(list) => {
            let rows = user_page_of(reg.users@, offset, limit);
            &&& list@.len() == rows.len()
            &&& forall|k: int|
                0 <= k < rows.len() ==> is_user_view(
                    reg,
                    rows[k],
                    #[trigger] list@[k],
                    match viewer {
                        Option::None => true,
                        Option::Some(w) => hides_private_fields(
                            w,
                            rows[k].id,
                            rows[k].permissions,
                        ),
                    },
                )
            &&& forall|k: int| 0 <= k < rows.len() ==> user_view_ok(reg, #[trigger] rows[k])
        },
        Err(e) => {
            &&& e == RegistryError::NotFound
            &&& exists|k: int|
                0 <= k < user_page_of(reg.users@, offset, limit).len() && !user_view_ok(
                    reg,
                    #[trigger] user_page_of(reg.users@, offset, limit)[k],
                )
        },
    }
}

/// A listing of users. An anonymous viewer sees every private field hidden;
/// an authenticated viewer sees their own, and everyone's whose row grants
/// the view-other capability. `NotFound` exactly when some listed view
/// cannot be assembled.
#[verifier::loop_isolation(false)]
pub fn find_all(reg: &Registry, limit: usize, offset: usize, viewer: Option<u64>) -> (r: Result<
    Vec<User>,
    RegistryError,
>)
    requires
        reg.wf(),
    ensures
        users_listing_post(*reg, limit as int, offset as int, viewer, r),
{
    let total = reg.users.len();
    let start = if offset > total {
        total
    } else {
        offset
    };
    let avail = total - start;
    let take = if limit > avail {
        avail
    } else {
        limit
    };
    let ghost rows = user_page_of(reg.users@, offset as int, limit as int);
    let mut out: Vec<User> = Vec::new();
    let mut i: usize = start;
    while i < start + take
        invariant
            start <= i <= start + take,
            start + take <= reg.users@.len(),
            rows == user_page_of(reg.users@, offset as int, limit as int),
            rows.len() == take,
            forall|k: int| 0 <= k < rows.len() ==> rows[k] == reg.users@[start + k],
            out@.len() == i - start,
            forall|k: int|
                0 <= k < out@.len() ==> is_user_view(
                    *reg,
                    reg.users@[start + k],
                    #[trigger] out@[k],
                    match viewer {
                        Option::None => true,
                        Option::Some(w) => hides_private_fields(
                            w,
                            reg.users@[start + k].id,
                            reg.users@[start + k].permissions,
                        ),
                    },
                ),
            forall|k: int|
                0 <= k < out@.len() ==> user_view_ok(*reg, #[trigger] reg.users@[start + k]),
        decreases start + take - i,
    {
        let mut v = match from_db_user(reg, &reg.users[i]) {
            Ok(v) => v,
            Err(e) => {
                proof {
                    assert(!user_view_ok(*reg, rows[i - start]));
                }
                return Err(e);
            },
        };
        match viewer {
            Some(w) => {
                if w != v.id && !crate::auth::validate_permissions(&v, PERMISSION_VIEW_OTHER) {
                    v.email = None;
                    v.api_key = None;
                }
            },
            None => {
                v.email = None;
                v.api_key = None;
            },
        }
        out.push(v);
        i = i + 1;
    }
    Ok(out)
}

/// The profile GitHub reports for a signed-in account.
pub struct GithubUser {
    pub avatar_url: String,
    pub bio: String,
    pub blog: String,
    pub email: String,
    pub id: i64,
    pub login: String,
    pub name: Option<String>,
    pub twitter_username: String,
    pub updated_at: i64,
    pub url: String,
}

/// The permission bits a fresh account starts with: view and edit
/// themselves, and create mods.
pub const DEFAULT_PERMISSIONS: i32 = 7;

/// The find-or-create step of the sign-in flow: the first user row carrying
/// this GitHub account id, or a fresh row built from the reported profile
/// with the default permission bits and the given API key. Returns the id
/// of the row signed in.
pub fn upsert_github_user(reg: &mut Registry, gh: &GithubUser, api_key: u128, now: i64) -> (r: u64)
    requires
        old(reg).wf(),
        old(reg).next_id < u64::MAX,
    ensures
        final(reg).wf(),
        final(reg).has_user(r),
        match first_github_index(old(reg).users@, gh.id) {
            Option::Some(i) => *final(reg) == *old(reg) && r == old(reg).users@[i].id,
            Option::None => {
                &&& final(reg).users@ == old(reg).users@.push(
                    UserRow {
                        id: r,
                        github_id: gh.id,
                        username: gh.login,
                        display_name: Option::None,
                        email: gh.email,
                        bio: Some(gh.bio),
                        avatar: Some(gh.avatar_url),
                        banner: Option::None,
                        permissions: DEFAULT_PERMISSIONS,
                        api_key,
                        created_at: now,
                        updated_at: now,
                    },
                )
                &&& r == old(reg).next_id
                &&& final(reg).next_id == old(reg).next_id + 1
                &&& final(reg).categories@ == old(reg).categories@
                &&& final(reg).game_versions@ == old(reg).game_versions@
                &&& final(reg).mods@ == old(reg).mods@
                &&& final(reg).versions@ == old(reg).versions@
                &&& final(reg).mod_stats@ == old(reg).mod_stats@
                &&& final(reg).version_stats@ == old(reg).version_stats@
                &&& final(reg).mod_game_versions@ == old(reg).mod_game_versions@
                &&& final(reg).version_game_versions@ == old(reg).version_game_versions@
                &&& final(reg).version_dependents@ == old(reg).version_dependents@
                &&& final(reg).version_conflicts@ == old(reg).version_conflicts@
                &&& final(reg).user_mods@ == old(reg).user_mods@
                &&& final(reg).mod_versions@ == old(reg).mod_versions@
            },
        },
{
    match reg.find_user_by_github_id(gh.id) {
        Some(i) => {
            proof {
                lemma_first_github_match(reg.users@, gh.id, i as int);
            }
            reg.users[i].id
        },
        None => {
            proof {
                lemma_no_github_match(reg.users@, gh.id);
            }
            reg.add_user(
                gh.id,
                gh.login.clone(),
                None,
                gh.email.clone(),
                Some(gh.bio.clone()),
                Some(gh.avatar_url.clone()),
                None,
                DEFAULT_PERMISSIONS,
                api_key,
                now,
            )
        },
    }
}

/// The first index of a user row with this GitHub id exists and is it.
proof fn lemma_first_github_match(users: Seq<UserRow>, github_id: i64, i: int)
    requires
        0 <= i < users.len(),
        users[i].github_id == github_id,
        forall|j: int| 0 <= j < i ==> (#[trigger] users[j]).github_id != github_id,
    ensures
        first_github_index(users, github_id) == Option::Some(i),
{
    assert(0 <= i < users.len() && users[i].github_id == github_id);
    let ci = choose|k: int|
        0 <= k < users.len() && (#[trigger] users[k]).github_id == github_id && forall|j: int|
            0 <= j < k ==> (#[trigger] users[j]).github_id != github_id;
    assert(0 <= ci < users.len() && users[ci].github_id == github_id && forall|j: int|
        0 <= j < ci ==> (#[trigger] users[j]).github_id != github_id) by {
        assert(0 <= i < users.len() && (#[trigger] users[i]).github_id == github_id && forall|
            j: int,
        | 0 <= j < i ==> (#[trigger] users[j]).github_id != github_id);
    }
    if ci < i {
        assert(users[ci].github_id != github_id);
    } else if ci > i {
        assert(users[i].github_id != github_id);
    }
}

/// No user row carries this GitHub id, so there is no first index.
proof fn lemma_no_github_match(users: Seq<UserRow>, github_id: i64)
    requires
        forall|j: int| 0 <= j < users.len() ==> (#[trigger] users[j]).github_id != github_id,
    ensures
        first_github_index(users, github_id) is None,
{
}

/// The index of the first user row carrying this GitHub account id.
pub open spec fn first_github_index(users: Seq<UserRow>, github_id: i64) -> Option<int> {
    if exists|i: int| 0 <= i < users.len() && (#[trigger] users[i]).github_id == github_id {
        Some(
            choose|i: int|
                0 <= i < users.len() && (#[trigger] users[i]).github_id == github_id && (forall|
                    j: int,
                |
                    0 <= j < i ==> (#[trigger] users[j]).github_id != github_id),
        )
    } else {
        None
    }
}

} // verus!
