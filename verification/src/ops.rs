//! The protected operations: profile queries and entity creation, each
//! behind the access guard.
//!
//! Every operation takes the bearer access token as an explicit argument,
//! authorizes it through the one shared guard with its own role
//! requirement, and then acts for the authenticated identity. Persistence
//! of rooms, tasks and achievements lives outside; the operations here
//! decide and construct the rows.

use vstd::prelude::*;

use crate::claims::ClaimsView;
use crate::codec::claims_token;
use crate::errors::AuthError;
use crate::guard::{authorize, authorize_spec, guard_spec, AuthContext};
use crate::keys::AuthKeys;
use crate::numstr::{dec_seq, u64_to_dec};
use crate::role::RoleReq;
use crate::session::MutationRoot;
use crate::store::{apply_edit, find_by_id_spec, opt_str_view, store_wf, with_score,
    CredentialStore, UserRecord};

verus! {

/// A classroom; the persisted row's id and timestamps are assigned by the
/// persistence layer.
#[derive(Debug)]
pub struct Room {
    pub name: String,
    /// The id of the teacher or admin who created the room.
    pub owner: u64,
}

/// An assignment posted to a room.
#[derive(Debug)]
pub struct Task {
    pub room_id: u64,
    pub title: String,
    pub content: String,
}

/// A badge definition.
#[derive(Debug)]
pub struct Achievment {
    pub title: String,
    pub description: String,
}

/// A user-achievement link row.
#[derive(Debug)]
pub struct UserAchievment {
    pub user_id: u64,
    pub achievment_id: u64,
    /// The composite key of the row.
    pub string: String,
}

/// A user-room membership row.
#[derive(Debug)]
pub struct UserRoom {
    pub user_id: u64,
    pub room_id: u64,
    /// The composite key of the row.
    pub string: String,
}

/// The composite key of a junction row: both ids in decimal, joined by a
/// dash.
pub open spec fn junction_key_seq(a: u64, b: u64) -> Seq<char> {
    dec_seq(a as nat) + "-"@ + dec_seq(b as nat)
}

/// Renders the composite key of a junction row.
pub fn junction_key(a: u64, b: u64) -> (r: String)
    ensures
        r@ == junction_key_seq(a, b),
{
    let mut s = u64_to_dec(a);
    s.append("-");
    let b_s = u64_to_dec(b);
    s.append(b_s.as_str());
    s
}

/// Whether a vector holds a value.
fn contains_u64(v: &Vec<u64>, x: u64) -> (r: bool)
    ensures
        r == v@.contains(x),
{
    let n = v.len();
    let mut i: usize = 0;
    while i < n
        invariant
            0 <= i <= n,
            n == v@.len(),
            forall|j: int| 0 <= j < i ==> v@[j] != x,
        decreases n - i,
    {
        if v[i] == x {
            return true;
        }
        i = i + 1;
    }
    false
}

/// The query entry points of the service.
pub struct QueryRoot;

impl QueryRoot {
    /// The caller's own record, as named by the access token.
    ///
    /// A read-only query, and deterministic: the result is a function of
    /// the store value, the keys, the token string and the time. Any
    /// authenticated, unexpired token passes the guard; a token naming an
    /// id the store does not hold fails with `InvalidToken`.
    pub fn me(store: &CredentialStore, keys: &AuthKeys, access_token: &str, now: u64) -> (r: Result<
        UserRecord,
        AuthError,
    >)
        ensures
            match authorize_spec(access_token@, keys@.access, now, RoleReq::Any) {
                Ok(a) => match find_by_id_spec(store@.users, a.user_id) {
                    Some(u) => r matches Ok(res) && res@ == u,
                    None => r matches Err(e) && e == AuthError::InvalidToken,
                },
                Err(g) => r matches Err(e) && e == g.as_auth_error(),
            },
            forall|c: ClaimsView|
                access_token@ == #[trigger] claims_token(keys@.access, c) ==> match guard_spec(
                    c,
                    now,
                    RoleReq::Any,
                ) {
                    Ok(a) => match find_by_id_spec(store@.users, a.user_id) {
                        Some(u) => r matches Ok(res) && res@ == u,
                        None => r matches Err(e) && e == AuthError::InvalidToken,
                    },
                    Err(g) => r matches Err(e) && e == g.as_auth_error(),
                },
            forall|k2: Seq<u8>, c: ClaimsView|
                access_token@ == #[trigger] claims_token(k2, c) && k2 != keys@.access ==> (r
                    matches Err(e) && e == AuthError::InvalidToken),
    {
        let auth = match authorize(access_token, keys.access_key(), now, RoleReq::Any) {
            Ok(a) => a,
            Err(g) => {
                return Err(g.to_auth_error());
            },
        };
        match store.find_by_id(auth.user_id) {
            Some(u) => Ok(u),
            None => Err(AuthError::InvalidToken),
        }
    }

    /// The members-only access decision for one room: the caller, named
    /// by the access token, may view a room exactly when it stands among
    /// the rooms the caller belongs to.
    ///
    /// The caller's membership list is handed in by the storage layer; a
    /// room not on it fails with `Forbidden`. The decision is
    /// deterministic in its arguments.
    pub fn get_room(
        keys: &AuthKeys,
        access_token: &str,
        member_room_ids: &Vec<u64>,
        room_id: u64,
        now: u64,
    ) -> (r: Result<AuthContext, AuthError>)
        ensures
            match authorize_spec(access_token@, keys@.access, now, RoleReq::Any) {
                Ok(a) => if member_room_ids@.contains(room_id) {
                    r matches Ok(res) && res == a
                } else {
                    r matches Err(e) && e == AuthError::Forbidden
                },
                Err(g) => r matches Err(e) && e == g.as_auth_error(),
            },
            forall|c: ClaimsView|
                access_token@ == #[trigger] claims_token(keys@.access, c) ==> match guard_spec(
                    c,
                    now,
                    RoleReq::Any,
                ) {
                    Ok(a) => if member_room_ids@.contains(room_id) {
                        r matches Ok(res) && res == a
                    } else {
                        r matches Err(e) && e == AuthError::Forbidden
                    },
                    Err(g) => r matches Err(e) && e == g.as_auth_error(),
                },
            forall|k2: Seq<u8>, c: ClaimsView|
                access_token@ == #[trigger] claims_token(k2, c) && k2 != keys@.access ==> (r
                    matches Err(e) && e == AuthError::InvalidToken),
    {
        let auth = match authorize(access_token, keys.access_key(), now, RoleReq::Any) {
            Ok(a) => a,
            Err(g) => {
                return Err(g.to_auth_error());
            },
        };
        if contains_u64(member_room_ids, room_id) {
            Ok(auth)
        } else {
            Err(AuthError::Forbidden)
        }
    }
}

impl MutationRoot {
    /// Creates a classroom owned by the caller; teachers and admins only.
    pub fn create_room(keys: &AuthKeys, access_token: &str, name: String, now: u64) -> (r: Result<
        Room,
        AuthError,
    >)
        ensures
            forall|c: ClaimsView|
                access_token@ == #[trigger] claims_token(keys@.access, c) ==> match guard_spec(
                    c,
                    now,
                    RoleReq::TeacherOrAdmin,
                ) {
                    Ok(a) => r matches Ok(room) && room.owner == a.user_id && room.name@ == name@,
                    Err(g) => r matches Err(e) && e == g.as_auth_error(),
                },
            forall|k2: Seq<u8>, c: ClaimsView|
                access_token@ == #[trigger] claims_token(k2, c) && k2 != keys@.access ==> (r
                    matches Err(e) && e == AuthError::InvalidToken),
    {
        let auth = match authorize(access_token, keys.access_key(), now, RoleReq::TeacherOrAdmin) {
            Ok(a) => a,
            Err(g) => {
                return Err(g.to_auth_error());
            },
        };
        Ok(Room { name, owner: auth.user_id })
    }

    /// Posts a task to a room; teachers and admins only.
    pub fn create_task(
        keys: &AuthKeys,
        access_token: &str,
        room_id: u64,
        title: String,
        content: String,
        now: u64,
    ) -> (r: Result<Task, AuthError>)
        ensures
            forall|c: ClaimsView|
                access_token@ == #[trigger] claims_token(keys@.access, c) ==> match guard_spec(
                    c,
                    now,
                    RoleReq::TeacherOrAdmin,
                ) {
                    Ok(a) => r matches Ok(task) && task.room_id == room_id && task.title@ == title@
                        && task.content@ == content@,
                    Err(g) => r matches Err(e) && e == g.as_auth_error(),
                },
            forall|k2: Seq<u8>, c: ClaimsView|
                access_token@ == #[trigger] claims_token(k2, c) && k2 != keys@.access ==> (r
                    matches Err(e) && e == AuthError::InvalidToken),
    {
        match authorize(access_token, keys.access_key(), now, RoleReq::TeacherOrAdmin) {
            Ok(_) => Ok(Task { room_id, title, content }),
            Err(g) => Err(g.to_auth_error()),
        }
    }

    /// Defines a new achievement; admins only.
    pub fn create_achievment(
        keys: &AuthKeys,
        access_token: &str,
        title: String,
        description: String,
        now: u64,
    ) -> (r: Result<Achievment, AuthError>)
        ensures
            forall|c: ClaimsView|
                access_token@ == #[trigger] claims_token(keys@.access, c) ==> match guard_spec(
                    c,
                    now,
                    RoleReq::AdminOnly,
                ) {
                    Ok(a) => r matches Ok(ach) && ach.title@ == title@ && ach.description@
                        == description@,
                    Err(g) => r matches Err(e) && e == g.as_auth_error(),
                },
            forall|k2: Seq<u8>, c: ClaimsView|
                access_token@ == #[trigger] claims_token(k2, c) && k2 != keys@.access ==> (r
                    matches Err(e) && e == AuthError::InvalidToken),
    {
        match authorize(access_token, keys.access_key(), now, RoleReq::AdminOnly) {
            Ok(_) => Ok(Achievment { title, description }),
            Err(g) => Err(g.to_auth_error()),
        }
    }

    /// Overwrites the present profile fields of the caller's own record.
    pub fn edit(
        store: &mut CredentialStore,
        keys: &AuthKeys,
        access_token: &str,
        school: Option<String>,
        name: Option<String>,
        last_name: Option<String>,
        class: Option<String>,
        avatar_url: Option<String>,
        now: u64,
    ) -> (r: Result<UserRecord, AuthError>)
        requires
            store_wf(old(store)@),
        ensures
            store_wf(final(store)@),
            final(store)@.next_id == old(store)@.next_id,
            r is Err ==> final(store)@ == old(store)@,
            forall|c: ClaimsView|
                access_token@ == #[trigger] claims_token(keys@.access, c) ==> match guard_spec(
                    c,
                    now,
                    RoleReq::Any,
                ) {
                    Ok(a) => match find_by_id_spec(old(store)@.users, a.user_id) {
                        Some(u) => r matches Ok(res) && res@ == apply_edit(
                            u,
                            opt_str_view(school),
                            opt_str_view(name),
                            opt_str_view(last_name),
                            opt_str_view(class),
                            opt_str_view(avatar_url),
                        ) && (forall|id2: u64|
                            #[trigger] find_by_id_spec(final(store)@.users, id2) == if id2
                                == a.user_id {
                                Some(res@)
                            } else {
                                find_by_id_spec(old(store)@.users, id2)
                            }),
                        None => r matches Err(e) && e == AuthError::InvalidToken,
                    },
                    Err(g) => r matches Err(e) && e == g.as_auth_error(),
                },
            forall|k2: Seq<u8>, c: ClaimsView|
                access_token@ == #[trigger] claims_token(k2, c) && k2 != keys@.access ==> (r
                    matches Err(e) && e == AuthError::InvalidToken),
    {
        let auth = match authorize(access_token, keys.access_key(), now, RoleReq::Any) {
            Ok(a) => a,
            Err(g) => {
                return Err(g.to_auth_error());
            },
        };
        match store.update_profile(auth.user_id, school, name, last_name, class, avatar_url) {
            Some(res) => Ok(res),
            None => Err(AuthError::InvalidToken),
        }
    }

    /// Grants an achievement to a user: adds one point to the user's
    /// score and constructs the link row.
    pub fn add_achievement(
        store: &mut CredentialStore,
        keys: &AuthKeys,
        access_token: &str,
        user_id: u64,
        achievment_id: u64,
        now: u64,
    ) -> (r: Result<UserAchievment, AuthError>)
        requires
            store_wf(old(store)@),
            find_by_id_spec(old(store)@.users, user_id) matches Some(u) ==> u.score < u64::MAX,
        ensures
            store_wf(final(store)@),
            final(store)@.next_id == old(store)@.next_id,
            r is Err ==> final(store)@ == old(store)@,
            forall|c: ClaimsView|
                access_token@ == #[trigger] claims_token(keys@.access, c) ==> match guard_spec(
                    c,
                    now,
                    RoleReq::Any,
                ) {
                    Ok(a) => match find_by_id_spec(old(store)@.users, user_id) {
                        Some(u) => r matches Ok(link) && link.user_id == user_id
                            && link.achievment_id == achievment_id && link.string@
                            == junction_key_seq(user_id, achievment_id) && (forall|id2: u64|
                            #[trigger] find_by_id_spec(final(store)@.users, id2) == if id2
                                == user_id {
                                Some(with_score(u, (u.score + 1) as u64))
                            } else {
                                find_by_id_spec(old(store)@.users, id2)
                            }),
                        None => r matches Err(e) && e == AuthError::InvalidToken,
                    },
                    Err(g) => r matches Err(e) && e == g.as_auth_error(),
                },
            forall|k2: Seq<u8>, c: ClaimsView|
                access_token@ == #[trigger] claims_token(k2, c) && k2 != keys@.access ==> (r
                    matches Err(e) && e == AuthError::InvalidToken),
    {
        match authorize(access_token, keys.access_key(), now, RoleReq::Any) {
            Ok(_) => {},
            Err(g) => {
                return Err(g.to_auth_error());
            },
        }
        match store.increment_score(user_id) {
            Some(_) => {},
            None => {
                return Err(AuthError::InvalidToken);
            },
        }
        Ok(
            UserAchievment {
                user_id,
                achievment_id,
                string: junction_key(user_id, achievment_id),
            },
        )
    }

    /// Adds a user to a room: constructs the membership row.
    pub fn add_to_room(
        keys: &AuthKeys,
        access_token: &str,
        user_id: u64,
        room_id: u64,
        now: u64,
    ) -> (r: Result<UserRoom, AuthError>)
        ensures
            forall|c: ClaimsView|
                access_token@ == #[trigger] claims_token(keys@.access, c) ==> match guard_spec(
                    c,
                    now,
                    RoleReq::Any,
                ) {
                    Ok(a) => r matches Ok(link) && link.user_id == user_id && link.room_id
                        == room_id && link.string@ == junction_key_seq(user_id, room_id),
                    Err(g) => r matches Err(e) && e == g.as_auth_error(),
                },
            forall|k2: Seq<u8>, c: ClaimsView|
                access_token@ == #[trigger] claims_token(k2, c) && k2 != keys@.access ==> (r
                    matches Err(e) && e == AuthError::InvalidToken),
    {
        match authorize(access_token, keys.access_key(), now, RoleReq::Any) {
            Ok(_) => Ok(UserRoom { user_id, room_id, string: junction_key(user_id, room_id) }),
            Err(g) => Err(g.to_auth_error()),
        }
    }
}

} // verus!
