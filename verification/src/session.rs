//! The session issuer: registration, login and refresh-token rotation.
//!
//! A successful login mints an access/refresh token pair and stores the
//! refresh token on the user record, superseding every earlier session. A
//! refresh verifies the presented token against the refresh key, against
//! its expiry, and against the stored token — the revocation check — and
//! then rotates: it mints and stores a fresh pair.

use vstd::prelude::*;

use crate::claims::{Claims, ClaimsView};
use crate::codec::{claims_token, sign_claims};
use crate::codec::verify_claims;
use crate::errors::{AuthError, StoreError};
use crate::hasher::{hash_password, password_check, verify_password};
use crate::keys::AuthKeys;
use crate::role::Role;
use crate::store::{find_by_email_spec, find_by_id_spec, has_email, has_username, store_wf,
    with_refresh_token, CredentialStore, StoreView, UserRecord, UserView};
use crate::store::{lemma_find_by_email_characterizes, lemma_find_by_email_present,
    lemma_find_by_id_characterizes, lemma_find_by_id_present};
use crate::text::str_eq;

verus! {

/// How many seconds past issue an access token lives (5 minutes).
pub const ACCESS_TTL_SECS: u64 = 300;

/// How many seconds past issue a refresh token lives (180 minutes).
pub const REFRESH_TTL_SECS: u64 = 10800;

/// The pair of bearer tokens a login or refresh returns.
#[derive(Debug)]
pub struct LoginResponse {
    pub refresh_token: String,
    pub access_token: String,
}

/// The claim set an access token minted at `now` for a user carries.
pub open spec fn access_claims_of(u: UserView, now: u64) -> ClaimsView {
    ClaimsView { id: u.id, email: u.email, role: u.role, exp: (now + ACCESS_TTL_SECS) as u64 }
}

/// The claim set a refresh token minted at `now` for a user carries.
pub open spec fn refresh_claims_of(u: UserView, now: u64) -> ClaimsView {
    ClaimsView { id: u.id, email: u.email, role: u.role, exp: (now + REFRESH_TTL_SECS) as u64 }
}

/// Whether a store accepts an email/password pair: the email finds a
/// record and the password verifies against its hash. Unknown email and
/// wrong password are deliberately indistinguishable in the outcome.
pub open spec fn login_accepts(s: StoreView, email: Seq<char>, password: Seq<char>) -> bool {
    find_by_email_spec(s.users, email) matches Some(u) && password_check(password, u.password_hash)
        == Some(true)
}

/// Whether a store accepts a presented refresh token at a time, for the
/// claim set the token is signed for: the signature is the refresh key's,
/// the token is unexpired, and it is exactly the one stored for the
/// claimed user — the revocation check.
pub open spec fn refresh_accepts(
    s: StoreView,
    rkey: Seq<u8>,
    token: Seq<char>,
    c: ClaimsView,
    now: u64,
) -> bool {
    token == claims_token(rkey, c) && c.exp >= now && (find_by_id_spec(s.users, c.id)
        matches Some(u) && u.refresh_token == Some(token))
}

/// The mutation entry points of the service.
pub struct MutationRoot;

impl MutationRoot {
    /// Registers a new user.
    ///
    /// Only the student and teacher role codes are accepted. The password
    /// is salted and hashed, never stored; the record gets the next free
    /// id, no refresh token and a zero score. A taken email or username is
    /// a store error; an internal hashing failure is a hash error; nothing
    /// else fails.
    pub fn register(
        store: &mut CredentialStore,
        username: String,
        email: String,
        password: &str,
        role_code: u64,
        name: String,
        last_name: String,
        school: String,
        class: String,
    ) -> (r: Result<UserRecord, AuthError>)
        requires
            store_wf(old(store)@),
        ensures
            store_wf(final(store)@),
            r is Err ==> final(store)@ == old(store)@,
            role_code != 0 && role_code != 1 ==> (r matches Err(e) && e == AuthError::InvalidRole),
            r matches Err(e) && e == AuthError::InvalidRole ==> role_code != 0 && role_code != 1,
            r == Err::<UserRecord, AuthError>(AuthError::Store(StoreError::Duplicate)) ==> has_email(
                old(store)@.users,
                email@,
            ) || has_username(old(store)@.users, username@),
            r == Err::<UserRecord, AuthError>(AuthError::Store(StoreError::Full)) ==> old(
                store,
            )@.next_id == u64::MAX,
            (role_code == 0 || role_code == 1) && (has_email(old(store)@.users, email@)
                || has_username(old(store)@.users, username@)) ==> (r matches Err(e) && (e
                == AuthError::HashError || e == AuthError::Store(StoreError::Duplicate))),
            (role_code == 0 || role_code == 1) && !has_email(old(store)@.users, email@)
                && !has_username(old(store)@.users, username@) && old(store)@.next_id < u64::MAX
                ==> (r is Ok || (r matches Err(e) && e == AuthError::HashError)),
            r matches Ok(u) ==> ((role_code == 0 || role_code == 1) && !has_email(
                old(store)@.users,
                email@,
            ) && !has_username(old(store)@.users, username@) && password_check(
                password@,
                u@.password_hash,
            ) == Some(true) && u@.id == old(store)@.next_id && u@.username == username@ && u@.email
                == email@ && Role::spec_from_code(role_code) == Some(u@.role) && u@.refresh_token
                is None && u@.score == 0 && u@.name == name@ && u@.last_name == last_name@
                && u@.school == school@ && u@.class == class@ && u@.avatar_url is None && final(store)@.users == old(store)@.users.push(u@) && final(store)@.next_id == old(store)@.next_id
                + 1),
    {
        let role = match Role::from_code(role_code) {
            Some(Role::Admin) => {
                return Err(AuthError::InvalidRole);
            },
            Some(ro) => ro,
            None => {
                return Err(AuthError::InvalidRole);
            },
        };
        let hash = match hash_password(password) {
            Some(h) => h,
            None => {
                return Err(AuthError::HashError);
            },
        };
        match store.insert_user(username, email, hash, role, name, last_name, school, class) {
            Ok(u) => Ok(u),
            Err(se) => Err(AuthError::Store(se)),
        }
    }

    /// Logs a user in by email and password.
    ///
    /// An unknown email and a wrong password fail with the same
    /// `InvalidCredentials`, never distinguished; a stored hash the
    /// verifier cannot read is a `HashError`. Accepted credentials always
    /// succeed: two fresh tokens are minted for the found user, and the
    /// refresh token is stored on the record, superseding any earlier
    /// one.
    pub fn login(
        store: &mut CredentialStore,
        keys: &AuthKeys,
        email: &str,
        password: &str,
        now: u64,
    ) -> (r: Result<LoginResponse, AuthError>)
        requires
            store_wf(old(store)@),
            now + REFRESH_TTL_SECS <= u64::MAX,
        ensures
            store_wf(final(store)@),
            final(store)@.next_id == old(store)@.next_id,
            r is Err ==> final(store)@ == old(store)@,
            (r matches Err(e) && e == AuthError::InvalidCredentials) <==> (find_by_email_spec(
                old(store)@.users,
                email@,
            ) is None || (find_by_email_spec(old(store)@.users, email@) matches Some(u)
                && password_check(password@, u.password_hash) == Some(false))),
            (r matches Err(e) && e == AuthError::HashError) <==> (find_by_email_spec(
                old(store)@.users,
                email@,
            ) matches Some(u) && password_check(password@, u.password_hash) is None),
            r is Ok <==> login_accepts(old(store)@, email@, password@),
            r matches Ok(resp) ==> (login_accepts(old(store)@, email@, password@) && (
            find_by_email_spec(old(store)@.users, email@) matches Some(u) && resp.access_token@
                == claims_token(keys@.access, access_claims_of(u, now)) && resp.refresh_token@
                == claims_token(keys@.refresh, refresh_claims_of(u, now)) && final(store)@.users.len() == old(store)@.users.len() && (forall|id2: u64|
                #[trigger] find_by_id_spec(final(store)@.users, id2) == if id2 == u.id {
                    Some(with_refresh_token(u, resp.refresh_token@))
                } else {
                    find_by_id_spec(old(store)@.users, id2)
                }))),
    {
        let user = match store.find_by_email(email) {
            Some(u) => u,
            None => {
                return Err(AuthError::InvalidCredentials);
            },
        };
        match verify_password(password, user.password_hash.as_str()) {
            Some(true) => {},
            Some(false) => {
                return Err(AuthError::InvalidCredentials);
            },
            None => {
                return Err(AuthError::HashError);
            },
        }
        let access_claims = Claims {
            id: user.id,
            email: user.email.clone(),
            role: user.role,
            exp: now + ACCESS_TTL_SECS,
        };
        let refresh_claims = Claims {
            id: user.id,
            email: user.email.clone(),
            role: user.role,
            exp: now + REFRESH_TTL_SECS,
        };
        let access_token = sign_claims(&access_claims, keys.access_key()).unwrap();
        let refresh_token = sign_claims(&refresh_claims, keys.refresh_key()).unwrap();
        proof {
            lemma_find_by_email_characterizes(store@.users, email@);
            let i = choose|i: int| 0 <= i < store@.users.len() && store@.users[i] == user@;
            lemma_find_by_id_present(store@.users, i);
        }
        let found = store.set_refresh_token(user.id, refresh_token.as_str());
        proof {
            assert(found);
        }
        Ok(LoginResponse { refresh_token, access_token })
    }

    /// Exchanges a live refresh token for a fresh token pair, rotating the
    /// stored one.
    ///
    /// The token must verify under the refresh key, be unexpired, name a
    /// known user, and equal that user's stored refresh token exactly —
    /// an older, superseded or foreign token fails with `InvalidToken`
    /// even while its signature and expiry are still good. A token that
    /// passes all four checks always rotates and succeeds.
    pub fn refresh(store: &mut CredentialStore, keys: &AuthKeys, refresh_token: &str, now: u64) -> (r:
        Result<LoginResponse, AuthError>)
        requires
            store_wf(old(store)@),
            now + REFRESH_TTL_SECS <= u64::MAX,
        ensures
            store_wf(final(store)@),
            final(store)@.next_id == old(store)@.next_id,
            r is Err ==> final(store)@ == old(store)@,
            forall|c: ClaimsView|
                refresh_token@ == #[trigger] claims_token(keys@.refresh, c) ==> ((c.exp < now ==> (
                r matches Err(e) && e == AuthError::Expired)) && (c.exp >= now && find_by_id_spec(
                    old(store)@.users,
                    c.id,
                ) is None ==> (r matches Err(e) && e == AuthError::InvalidToken)) && (c.exp >= now
                    && (find_by_id_spec(old(store)@.users, c.id) matches Some(u)
                    && u.refresh_token != Some(refresh_token@)) ==> (r matches Err(e) && e
                    == AuthError::InvalidToken)) && (refresh_accepts(
                    old(store)@,
                    keys@.refresh,
                    refresh_token@,
                    c,
                    now,
                ) ==> r is Ok)),
            forall|c: ClaimsView|
                #[trigger] refresh_accepts(old(store)@, keys@.refresh, refresh_token@, c, now)
                    ==> (r matches Ok(resp) && (find_by_id_spec(old(store)@.users, c.id)
                    matches Some(u) && resp.access_token@ == claims_token(
                    keys@.access,
                    access_claims_of(u, now),
                ) && resp.refresh_token@ == claims_token(keys@.refresh, refresh_claims_of(u, now))
                    && final(store)@.users.len() == old(store)@.users.len() && (forall|id2: u64|
                    #[trigger] find_by_id_spec(final(store)@.users, id2) == if id2 == u.id {
                        Some(with_refresh_token(u, resp.refresh_token@))
                    } else {
                        find_by_id_spec(old(store)@.users, id2)
                    }))),
            forall|k2: Seq<u8>, c: ClaimsView|
                refresh_token@ == #[trigger] claims_token(k2, c) && k2 != keys@.refresh ==> (r
                    matches Err(e) && e == AuthError::InvalidToken),
    {
        let claims = match verify_claims(refresh_token, keys.refresh_key()) {
            Ok(c) => c,
            Err(_) => {
                return Err(AuthError::InvalidToken);
            },
        };
        if claims.exp < now {
            return Err(AuthError::Expired);
        }
        let user = match store.find_by_id(claims.id) {
            Some(u) => u,
            None => {
                return Err(AuthError::InvalidToken);
            },
        };
        proof {
            lemma_find_by_id_characterizes(store@.users, claims.id);
        }
        let matches_stored = match &user.refresh_token {
            Some(t) => str_eq(t.as_str(), refresh_token),
            None => false,
        };
        if !matches_stored {
            return Err(AuthError::InvalidToken);
        }
        let access_claims = Claims {
            id: user.id,
            email: user.email.clone(),
            role: user.role,
            exp: now + ACCESS_TTL_SECS,
        };
        let refresh_claims = Claims {
            id: user.id,
            email: user.email.clone(),
            role: user.role,
            exp: now + REFRESH_TTL_SECS,
        };
        let access_token = sign_claims(&access_claims, keys.access_key()).unwrap();
        let new_refresh = sign_claims(&refresh_claims, keys.refresh_key()).unwrap();
        let found = store.set_refresh_token(user.id, new_refresh.as_str());
        proof {
            assert(found);
        }
        Ok(LoginResponse { refresh_token: new_refresh, access_token })
    }
}

/// Every record of a well-formed store is found by its own email, so a
/// user registered with a password whose hash verifies is accepted by
/// login — which then succeeds, `login`'s contract owing success on
/// accepted credentials, and returns tokens that embed exactly that
/// record's id, email and role.
pub proof fn lemma_registered_login_accepted(s: StoreView, u: UserView, password: Seq<char>)
    requires
        store_wf(s),
        exists|i: int| 0 <= i < s.users.len() && s.users[i] == u,
        password_check(password, u.password_hash) == Some(true),
    ensures
        find_by_email_spec(s.users, u.email) == Some(u),
        login_accepts(s, u.email, password),
{
    let i = choose|i: int| 0 <= i < s.users.len() && s.users[i] == u;
    lemma_find_by_email_present(s.users, i);
}

/// Rotation invalidates the superseded token: once a user's record stores
/// a new refresh token, a different older token no longer passes refresh
/// verification for that user, while the stored one passes as long as it
/// is unexpired.
pub proof fn lemma_refresh_rotation(
    s: StoreView,
    u: UserView,
    old_token: Seq<char>,
    new_token: Seq<char>,
    rkey: Seq<u8>,
    now: u64,
)
    requires
        find_by_id_spec(s.users, u.id) == Some(u),
        u.refresh_token == Some(new_token),
        old_token != new_token,
    ensures
        forall|c: ClaimsView|
            c.id == u.id ==> !#[trigger] refresh_accepts(s, rkey, old_token, c, now),
        forall|c: ClaimsView|
            new_token == #[trigger] claims_token(rkey, c) && c.id == u.id && c.exp >= now
                ==> refresh_accepts(s, rkey, new_token, c, now),
{
}

} // verus!
