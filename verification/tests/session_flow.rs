use classroom_auth::codec::verify_claims;
use classroom_auth::errors::{AuthError, StoreError};
use classroom_auth::keys::AuthKeys;
use classroom_auth::role::Role;
use classroom_auth::session::MutationRoot;
use classroom_auth::store::CredentialStore;

const NOW: u64 = 1_700_000_000;

fn keys() -> AuthKeys {
    AuthKeys::new(b"access-secret".to_vec(), b"refresh-secret".to_vec()).unwrap()
}

fn register_alice(store: &mut CredentialStore, role_code: u64) -> classroom_auth::store::UserRecord {
    MutationRoot::register(
        store,
        String::from("alice"),
        String::from("alice@example.org"),
        "correct horse",
        role_code,
        String::from("Alice"),
        String::from("Arnold"),
        String::from("Springfield High"),
        String::from("7b"),
    )
    .expect("registration should succeed")
}

#[test]
fn register_assigns_fresh_record() {
    let mut store = CredentialStore::new();
    let user = register_alice(&mut store, 0);
    assert_eq!(user.id, 1);
    assert_eq!(user.username, "alice");
    assert_eq!(user.email, "alice@example.org");
    assert_eq!(user.role, Role::Student);
    assert_eq!(user.refresh_token, None);
    assert_eq!(user.score, 0);
    assert_eq!(user.name, "Alice");
    assert_eq!(user.last_name, "Arnold");
    assert_eq!(user.school, "Springfield High");
    assert_eq!(user.class, "7b");
    assert_eq!(user.avatar_url, None);
    assert_ne!(user.password_hash, "correct horse");
    assert_eq!(store.user_count(), 1);
}

#[test]
fn register_rejects_admin_and_unknown_roles() {
    let mut store = CredentialStore::new();
    for code in [2u64, 3, 99] {
        let r = MutationRoot::register(
            &mut store,
            String::from("root"),
            String::from("root@example.org"),
            "pw",
            code,
            String::new(),
            String::new(),
            String::new(),
            String::new(),
        );
        assert_eq!(r.unwrap_err(), AuthError::InvalidRole);
    }
    assert_eq!(store.user_count(), 0);
}

#[test]
fn register_rejects_taken_email_and_username() {
    let mut store = CredentialStore::new();
    register_alice(&mut store, 0);
    let dup_email = MutationRoot::register(
        &mut store,
        String::from("alice2"),
        String::from("alice@example.org"),
        "pw",
        0,
        String::new(),
        String::new(),
        String::new(),
        String::new(),
    );
    assert_eq!(dup_email.unwrap_err(), AuthError::Store(StoreError::Duplicate));
    let dup_username = MutationRoot::register(
        &mut store,
        String::from("alice"),
        String::from("other@example.org"),
        "pw",
        0,
        String::new(),
        String::new(),
        String::new(),
        String::new(),
    );
    assert_eq!(dup_username.unwrap_err(), AuthError::Store(StoreError::Duplicate));
    assert_eq!(store.user_count(), 1);
}

#[test]
fn registered_user_can_log_in() {
    let mut store = CredentialStore::new();
    let keys = keys();
    let user = register_alice(&mut store, 1);
    let pair = MutationRoot::login(&mut store, &keys, "alice@example.org", "correct horse", NOW)
        .expect("login should succeed");
    let access = verify_claims(pair.access_token.as_str(), keys.access_key()).unwrap();
    assert_eq!(access.id, user.id);
    assert_eq!(access.email, user.email);
    assert_eq!(access.role, Role::Teacher);
    assert_eq!(access.exp, NOW + 300);
    let refresh = verify_claims(pair.refresh_token.as_str(), keys.refresh_key()).unwrap();
    assert_eq!(refresh.id, user.id);
    assert_eq!(refresh.email, user.email);
    assert_eq!(refresh.role, Role::Teacher);
    assert_eq!(refresh.exp, NOW + 10800);
}

#[test]
fn login_failures_are_indistinguishable() {
    let mut store = CredentialStore::new();
    let keys = keys();
    register_alice(&mut store, 0);
    let wrong_password =
        MutationRoot::login(&mut store, &keys, "alice@example.org", "wrong", NOW).unwrap_err();
    let unknown_email =
        MutationRoot::login(&mut store, &keys, "nobody@example.org", "correct horse", NOW)
            .unwrap_err();
    assert_eq!(wrong_password, AuthError::InvalidCredentials);
    assert_eq!(unknown_email, AuthError::InvalidCredentials);
    assert_eq!(wrong_password, unknown_email);
}

#[test]
fn refresh_rotates_and_invalidates_old_token() {
    let mut store = CredentialStore::new();
    let keys = keys();
    register_alice(&mut store, 0);
    let first = MutationRoot::login(&mut store, &keys, "alice@example.org", "correct horse", NOW)
        .unwrap();
    let second = MutationRoot::refresh(&mut store, &keys, first.refresh_token.as_str(), NOW + 1)
        .expect("a live refresh token should rotate");
    assert_ne!(first.refresh_token, second.refresh_token);
    // The superseded token no longer passes refresh verification.
    let replay = MutationRoot::refresh(&mut store, &keys, first.refresh_token.as_str(), NOW + 2);
    assert_eq!(replay.unwrap_err(), AuthError::InvalidToken);
    // The newly issued one does.
    let third = MutationRoot::refresh(&mut store, &keys, second.refresh_token.as_str(), NOW + 2);
    assert!(third.is_ok());
}

#[test]
fn refresh_rejects_expired_token() {
    let mut store = CredentialStore::new();
    let keys = keys();
    register_alice(&mut store, 0);
    let pair = MutationRoot::login(&mut store, &keys, "alice@example.org", "correct horse", NOW)
        .unwrap();
    let late = MutationRoot::refresh(&mut store, &keys, pair.refresh_token.as_str(), NOW + 10801);
    assert_eq!(late.unwrap_err(), AuthError::Expired);
}

#[test]
fn refresh_rejects_access_token() {
    let mut store = CredentialStore::new();
    let keys = keys();
    register_alice(&mut store, 0);
    let pair = MutationRoot::login(&mut store, &keys, "alice@example.org", "correct horse", NOW)
        .unwrap();
    let crossed = MutationRoot::refresh(&mut store, &keys, pair.access_token.as_str(), NOW + 1);
    assert_eq!(crossed.unwrap_err(), AuthError::InvalidToken);
}

#[test]
fn refresh_rejects_garbage() {
    let mut store = CredentialStore::new();
    let keys = keys();
    let r = MutationRoot::refresh(&mut store, &keys, "not-a-token", NOW);
    assert_eq!(r.unwrap_err(), AuthError::InvalidToken);
}

#[test]
fn login_overwrites_previous_refresh_token() {
    let mut store = CredentialStore::new();
    let keys = keys();
    register_alice(&mut store, 0);
    let first = MutationRoot::login(&mut store, &keys, "alice@example.org", "correct horse", NOW)
        .unwrap();
    let _second =
        MutationRoot::login(&mut store, &keys, "alice@example.org", "correct horse", NOW + 5)
            .unwrap();
    // The first session's refresh token was superseded by the second login.
    let replay = MutationRoot::refresh(&mut store, &keys, first.refresh_token.as_str(), NOW + 6);
    assert_eq!(replay.unwrap_err(), AuthError::InvalidToken);
}

#[test]
fn refresh_in_the_same_second_reissues_the_same_token() {
    // Signing is deterministic, so a refresh in the second of the login
    // mints a byte-identical refresh token; rotation only supersedes the
    // old token once the clock has moved.
    let mut store = CredentialStore::new();
    let keys = keys();
    register_alice(&mut store, 0);
    let first = MutationRoot::login(&mut store, &keys, "alice@example.org", "correct horse", NOW)
        .unwrap();
    let second =
        MutationRoot::refresh(&mut store, &keys, first.refresh_token.as_str(), NOW).unwrap();
    assert_eq!(first.refresh_token, second.refresh_token);
}
