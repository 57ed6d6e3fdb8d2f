use classroom_auth::claims::Claims;
use classroom_auth::codec::sign_claims;
use classroom_auth::errors::AuthError;
use classroom_auth::keys::AuthKeys;
use classroom_auth::ops::QueryRoot;
use classroom_auth::role::Role;
use classroom_auth::session::MutationRoot;
use classroom_auth::store::CredentialStore;

const NOW: u64 = 1_700_000_000;

fn keys() -> AuthKeys {
    AuthKeys::new(b"access-secret".to_vec(), b"refresh-secret".to_vec()).unwrap()
}

fn register_and_login(
    store: &mut CredentialStore,
    keys: &AuthKeys,
    username: &str,
    email: &str,
    role_code: u64,
) -> (u64, String) {
    let user = MutationRoot::register(
        store,
        String::from(username),
        String::from(email),
        "hunter2hunter2",
        role_code,
        String::from("First"),
        String::from("Last"),
        String::from("School"),
        String::from("1a"),
    )
    .unwrap();
    let pair = MutationRoot::login(store, keys, email, "hunter2hunter2", NOW).unwrap();
    (user.id, pair.access_token)
}

/// A token for a role that registration does not hand out, signed
/// directly with the access key.
fn minted_access_token(keys: &AuthKeys, id: u64, role: Role, exp: u64) -> String {
    let claims = Claims { id, email: String::from("minted@example.org"), role, exp };
    sign_claims(&claims, keys.access_key()).unwrap()
}

#[test]
fn me_returns_own_record() {
    let mut store = CredentialStore::new();
    let keys = keys();
    let (id, token) = register_and_login(&mut store, &keys, "kim", "kim@example.org", 0);
    let rec = QueryRoot::me(&store, &keys, token.as_str(), NOW + 10).unwrap();
    assert_eq!(rec.id, id);
    assert_eq!(rec.email, "kim@example.org");
    assert_eq!(rec.role, Role::Student);
}

#[test]
fn expired_access_token_fails_with_expired() {
    let mut store = CredentialStore::new();
    let keys = keys();
    let (_, token) = register_and_login(&mut store, &keys, "kim", "kim@example.org", 0);
    let r = QueryRoot::me(&store, &keys, token.as_str(), NOW + 301);
    assert_eq!(r.unwrap_err(), AuthError::Expired);
    // A validly signed token whose expiry already lies in the past is
    // expired, not unauthenticated.
    let stale = minted_access_token(&keys, 1, Role::Student, NOW - 1);
    let r = QueryRoot::me(&store, &keys, stale.as_str(), NOW);
    assert_eq!(r.unwrap_err(), AuthError::Expired);
}

#[test]
fn refresh_token_does_not_pass_the_access_guard() {
    let mut store = CredentialStore::new();
    let keys = keys();
    MutationRoot::register(
        &mut store,
        String::from("kim"),
        String::from("kim@example.org"),
        "hunter2hunter2",
        0,
        String::new(),
        String::new(),
        String::new(),
        String::new(),
    )
    .unwrap();
    let pair =
        MutationRoot::login(&mut store, &keys, "kim@example.org", "hunter2hunter2", NOW).unwrap();
    let r = QueryRoot::me(&store, &keys, pair.refresh_token.as_str(), NOW);
    assert_eq!(r.unwrap_err(), AuthError::InvalidToken);
}

#[test]
fn garbage_token_is_unauthenticated() {
    let store = CredentialStore::new();
    let keys = keys();
    let r = QueryRoot::me(&store, &keys, "definitely-not-a-token", NOW);
    assert_eq!(r.unwrap_err(), AuthError::InvalidToken);
}

#[test]
fn create_room_requires_teacher_or_admin() {
    let mut store = CredentialStore::new();
    let keys = keys();
    let (_, student_token) = register_and_login(&mut store, &keys, "stu", "stu@example.org", 0);
    let r = MutationRoot::create_room(&keys, student_token.as_str(), String::from("maths"), NOW);
    assert_eq!(r.unwrap_err(), AuthError::Forbidden);

    let (teacher_id, teacher_token) =
        register_and_login(&mut store, &keys, "tea", "tea@example.org", 1);
    let room = MutationRoot::create_room(&keys, teacher_token.as_str(), String::from("maths"), NOW)
        .unwrap();
    assert_eq!(room.owner, teacher_id);
    assert_eq!(room.name, "maths");

    let admin_token = minted_access_token(&keys, 42, Role::Admin, NOW + 60);
    let room = MutationRoot::create_room(&keys, admin_token.as_str(), String::from("hall"), NOW)
        .unwrap();
    assert_eq!(room.owner, 42);
}

#[test]
fn create_task_requires_teacher_or_admin() {
    let mut store = CredentialStore::new();
    let keys = keys();
    let (_, student_token) = register_and_login(&mut store, &keys, "stu", "stu@example.org", 0);
    let r = MutationRoot::create_task(
        &keys,
        student_token.as_str(),
        3,
        String::from("read"),
        String::from("chapter one"),
        NOW,
    );
    assert_eq!(r.unwrap_err(), AuthError::Forbidden);

    let (_, teacher_token) = register_and_login(&mut store, &keys, "tea", "tea@example.org", 1);
    let task = MutationRoot::create_task(
        &keys,
        teacher_token.as_str(),
        3,
        String::from("read"),
        String::from("chapter one"),
        NOW,
    )
    .unwrap();
    assert_eq!(task.room_id, 3);
    assert_eq!(task.title, "read");
    assert_eq!(task.content, "chapter one");
}

#[test]
fn create_achievment_is_admin_only() {
    let mut store = CredentialStore::new();
    let keys = keys();
    let (_, teacher_token) = register_and_login(&mut store, &keys, "tea", "tea@example.org", 1);
    let r = MutationRoot::create_achievment(
        &keys,
        teacher_token.as_str(),
        String::from("star"),
        String::from("shiny"),
        NOW,
    );
    assert_eq!(r.unwrap_err(), AuthError::Forbidden);

    let admin_token = minted_access_token(&keys, 9, Role::Admin, NOW + 60);
    let ach = MutationRoot::create_achievment(
        &keys,
        admin_token.as_str(),
        String::from("star"),
        String::from("shiny"),
        NOW,
    )
    .unwrap();
    assert_eq!(ach.title, "star");
    assert_eq!(ach.description, "shiny");
}

#[test]
fn edit_updates_only_given_fields() {
    let mut store = CredentialStore::new();
    let keys = keys();
    let (id, token) = register_and_login(&mut store, &keys, "kim", "kim@example.org", 0);
    let rec = MutationRoot::edit(
        &mut store,
        &keys,
        token.as_str(),
        Some(String::from("New School")),
        None,
        None,
        Some(String::from("2b")),
        Some(String::from("http://avatars.example/kim.png")),
        NOW,
    )
    .unwrap();
    assert_eq!(rec.id, id);
    assert_eq!(rec.school, "New School");
    assert_eq!(rec.class, "2b");
    assert_eq!(rec.name, "First");
    assert_eq!(rec.last_name, "Last");
    assert_eq!(rec.avatar_url, Some(String::from("http://avatars.example/kim.png")));
    // The store now holds the updated record.
    let again = QueryRoot::me(&store, &keys, token.as_str(), NOW).unwrap();
    assert_eq!(again.school, "New School");
    assert_eq!(again.name, "First");
}

#[test]
fn add_achievement_increments_score() {
    let mut store = CredentialStore::new();
    let keys = keys();
    let (id, token) = register_and_login(&mut store, &keys, "kim", "kim@example.org", 0);
    let link =
        MutationRoot::add_achievement(&mut store, &keys, token.as_str(), id, 2, NOW).unwrap();
    assert_eq!(link.user_id, id);
    assert_eq!(link.achievment_id, 2);
    assert_eq!(link.string, "1-2");
    let rec = QueryRoot::me(&store, &keys, token.as_str(), NOW).unwrap();
    assert_eq!(rec.score, 1);
}

#[test]
fn add_achievement_unknown_user_fails() {
    let mut store = CredentialStore::new();
    let keys = keys();
    let (_, token) = register_and_login(&mut store, &keys, "kim", "kim@example.org", 0);
    let r = MutationRoot::add_achievement(&mut store, &keys, token.as_str(), 999, 2, NOW);
    assert_eq!(r.unwrap_err(), AuthError::InvalidToken);
}

#[test]
fn add_to_room_builds_link_row() {
    let mut store = CredentialStore::new();
    let keys = keys();
    let (_, token) = register_and_login(&mut store, &keys, "kim", "kim@example.org", 0);
    let link = MutationRoot::add_to_room(&keys, token.as_str(), 4, 7, NOW).unwrap();
    assert_eq!(link.user_id, 4);
    assert_eq!(link.room_id, 7);
    assert_eq!(link.string, "4-7");
}

#[test]
fn get_room_requires_membership() {
    let mut store = CredentialStore::new();
    let keys = keys();
    let (id, token) = register_and_login(&mut store, &keys, "kim", "kim@example.org", 0);
    let memberships = vec![5u64, 7];
    let auth = QueryRoot::get_room(&keys, token.as_str(), &memberships, 5, NOW).unwrap();
    assert_eq!(auth.user_id, id);
    let r = QueryRoot::get_room(&keys, token.as_str(), &memberships, 6, NOW);
    assert_eq!(r.unwrap_err(), AuthError::Forbidden);
}
