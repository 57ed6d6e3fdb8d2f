//! The credential store: user records with unique ids, usernames and
//! emails.
//!
//! The store models the persistence layer the session issuer talks to. A
//! record's `refresh_token` field holds the most recently issued refresh
//! token for that user, or nothing; overwriting it is what revokes every
//! older session.

use vstd::prelude::*;

use crate::errors::StoreError;
use crate::role::Role;
use crate::text::str_eq;

verus! {

/// One user record.
#[derive(Debug)]
pub struct UserRecord {
    /// The server-assigned identifier, unique across the store.
    pub id: u64,
    /// Unique login name.
    pub username: String,
    /// Unique email, the key a login looks a user up by.
    pub email: String,
    /// The salted hash record of the user's password; the plaintext is
    /// never stored.
    pub password_hash: String,
    /// The user's role.
    pub role: Role,
    /// The most recently issued refresh token, if any.
    pub refresh_token: Option<String>,
    /// First name.
    pub name: String,
    /// Last name.
    pub last_name: String,
    /// School name.
    pub school: String,
    /// Class name.
    pub class: String,
    /// Gamification score.
    pub score: u64,
    /// Avatar location, if any.
    pub avatar_url: Option<String>,
}

/// The mathematical value of a user record.
pub ghost struct UserView {
    pub id: u64,
    pub username: Seq<char>,
    pub email: Seq<char>,
    pub password_hash: Seq<char>,
    pub role: Role,
    pub refresh_token: Option<Seq<char>>,
    pub name: Seq<char>,
    pub last_name: Seq<char>,
    pub school: Seq<char>,
    pub class: Seq<char>,
    pub score: u64,
    pub avatar_url: Option<Seq<char>>,
}

/// The view of one optional string field.
pub open spec fn opt_str_view(o: Option<String>) -> Option<Seq<char>> {
    match o {
        Some(s) => Some(s@),
        None => None,
    }
}

impl View for UserRecord {
    type V = UserView;

    open spec fn view(&self) -> UserView {
        UserView {
            id: self.id,
            username: self.username@,
            email: self.email@,
            password_hash: self.password_hash@,
            role: self.role,
            refresh_token: opt_str_view(self.refresh_token),
            name: self.name@,
            last_name: self.last_name@,
            school: self.school@,
            class: self.class@,
            score: self.score,
            avatar_url: opt_str_view(self.avatar_url),
        }
    }
}

impl Clone for UserRecord {
    fn clone(&self) -> (r: Self)
        ensures
            r@ == self@,
    {
        UserRecord {
            id: self.id,
            username: self.username.clone(),
            email: self.email.clone(),
            password_hash: self.password_hash.clone(),
            role: self.role,
            refresh_token: match &self.refresh_token {
                Some(t) => Some(t.clone()),
                None => None,
            },
            name: self.name.clone(),
            last_name: self.last_name.clone(),
            school: self.school.clone(),
            class: self.class.clone(),
            score: self.score,
            avatar_url: match &self.avatar_url {
                Some(t) => Some(t.clone()),
                None => None,
            },
        }
    }
}

/// The mathematical value of the whole store.
pub ghost struct StoreView {
    pub users: Seq<UserView>,
    pub next_id: u64,
}

/// No two records share an id, a username or an email.
pub open spec fn unique_users(users: Seq<UserView>) -> bool {
    forall|i: int, j: int|
        0 <= i < j < users.len() ==> ((#[trigger] users[i]).id != (#[trigger] users[j]).id
            && users[i].email != users[j].email && users[i].username != users[j].username)
}

/// Every record's id lies below the next id to be assigned.
pub open spec fn ids_below(users: Seq<UserView>, bound: u64) -> bool {
    forall|i: int| 0 <= i < users.len() ==> (#[trigger] users[i]).id < bound
}

/// The store invariant.
pub open spec fn store_wf(s: StoreView) -> bool {
    unique_users(s.users) && ids_below(s.users, s.next_id)
}

/// The first record carrying an email, if any.
pub open spec fn find_by_email_spec(users: Seq<UserView>, email: Seq<char>) -> Option<UserView>
    decreases users.len(),
{
    if users.len() == 0 {
        None
    } else if users[0].email == email {
        Some(users[0])
    } else {
        find_by_email_spec(users.drop_first(), email)
    }
}

/// The first record carrying an id, if any.
pub open spec fn find_by_id_spec(users: Seq<UserView>, id: u64) -> Option<UserView>
    decreases users.len(),
{
    if users.len() == 0 {
        None
    } else if users[0].id == id {
        Some(users[0])
    } else {
        find_by_id_spec(users.drop_first(), id)
    }
}

/// Whether some record carries an email.
pub open spec fn has_email(users: Seq<UserView>, email: Seq<char>) -> bool {
    exists|i: int| 0 <= i < users.len() && (#[trigger] users[i]).email == email
}

/// Whether some record carries a username.
pub open spec fn has_username(users: Seq<UserView>, username: Seq<char>) -> bool {
    exists|i: int| 0 <= i < users.len() && (#[trigger] users[i]).username == username
}

/// What a successful or failed id lookup says about the records.
pub proof fn lemma_find_by_id_characterizes(users: Seq<UserView>, id: u64)
    ensures
        match find_by_id_spec(users, id) {
            Some(u) => u.id == id && exists|i: int| 0 <= i < users.len() && users[i] == u,
            None => forall|i: int| 0 <= i < users.len() ==> (#[trigger] users[i]).id != id,
        },
    decreases users.len(),
{
    if users.len() > 0 && users[0].id != id {
        lemma_find_by_id_characterizes(users.drop_first(), id);
        match find_by_id_spec(users.drop_first(), id) {
            Some(u) => {
                let i = choose|i: int|
                    0 <= i < users.drop_first().len() && users.drop_first()[i] == u;
                assert(users[i + 1] == u);
            },
            None => {
                assert forall|i: int| 0 <= i < users.len() implies (#[trigger] users[i]).id
                    != id by {
                    if i > 0 {
                        assert(users.drop_first()[i - 1] == users[i]);
                    }
                };
            },
        }
    }
}

/// A record present at some index is the one an id lookup finds, as long
/// as ids are unique.
pub proof fn lemma_find_by_id_present(users: Seq<UserView>, i: int)
    requires
        unique_users(users),
        0 <= i < users.len(),
    ensures
        find_by_id_spec(users, users[i].id) == Some(users[i]),
    decreases users.len(),
{
    if i > 0 {
        assert(users[0].id != users[i].id);
        lemma_find_by_id_present(users.drop_first(), i - 1);
        assert(users.drop_first()[i - 1] == users[i]);
    }
}

/// What a successful or failed email lookup says about the records.
pub proof fn lemma_find_by_email_characterizes(users: Seq<UserView>, email: Seq<char>)
    ensures
        match find_by_email_spec(users, email) {
            Some(u) => u.email == email && exists|i: int| 0 <= i < users.len() && users[i] == u,
            None => forall|i: int| 0 <= i < users.len() ==> (#[trigger] users[i]).email != email,
        },
        find_by_email_spec(users, email) is Some <==> has_email(users, email),
    decreases users.len(),
{
    if users.len() > 0 && users[0].email != email {
        lemma_find_by_email_characterizes(users.drop_first(), email);
        match find_by_email_spec(users.drop_first(), email) {
            Some(u) => {
                let i = choose|i: int|
                    0 <= i < users.drop_first().len() && users.drop_first()[i] == u;
                assert(users[i + 1] == u);
            },
            None => {
                assert forall|i: int| 0 <= i < users.len() implies (#[trigger] users[i]).email
                    != email by {
                    if i > 0 {
                        assert(users.drop_first()[i - 1] == users[i]);
                    }
                };
            },
        }
    }
}

/// A record present at some index is the one an email lookup finds, as
/// long as emails are unique.
pub proof fn lemma_find_by_email_present(users: Seq<UserView>, i: int)
    requires
        unique_users(users),
        0 <= i < users.len(),
    ensures
        find_by_email_spec(users, users[i].email) == Some(users[i]),
    decreases users.len(),
{
    if i > 0 {
        assert(users[0].email != users[i].email);
        lemma_find_by_email_present(users.drop_first(), i - 1);
        assert(users.drop_first()[i - 1] == users[i]);
    }
}

/// How replacing one record, id kept, changes every id lookup: the
/// replaced id now finds the new record, every other id finds what it
/// found before.
pub proof fn lemma_find_by_id_update(users: Seq<UserView>, i: int, v: UserView)
    requires
        unique_users(users),
        0 <= i < users.len(),
        users[i].id == v.id,
    ensures
        forall|id2: u64|
            #[trigger] find_by_id_spec(users.update(i, v), id2) == if id2 == v.id {
                Some(v)
            } else {
                find_by_id_spec(users, id2)
            },
    decreases users.len(),
{
    let updated = users.update(i, v);
    assert forall|id2: u64|
        #[trigger] find_by_id_spec(updated, id2) == if id2 == v.id {
            Some(v)
        } else {
            find_by_id_spec(users, id2)
        } by {
        if i == 0 {
            if id2 != v.id {
                assert(updated.drop_first() =~= users.drop_first());
            }
        } else {
            assert(updated[0] == users[0]);
            assert(updated.drop_first() =~= users.drop_first().update(i - 1, v));
            assert(unique_users(users.drop_first())) by {
                assert forall|p: int, q: int|
                    0 <= p < q < users.drop_first().len() implies ((#[trigger] users.drop_first()[p]).id
                    != (#[trigger] users.drop_first()[q]).id && users.drop_first()[p].email
                    != users.drop_first()[q].email && users.drop_first()[p].username
                    != users.drop_first()[q].username) by {
                    assert(users.drop_first()[p] == users[p + 1]);
                    assert(users.drop_first()[q] == users[q + 1]);
                };
            };
            assert(users.drop_first()[i - 1] == users[i]);
            lemma_find_by_id_update(users.drop_first(), i - 1, v);
            if users[0].id == id2 {
            } else {
                assert(find_by_id_spec(updated, id2) == find_by_id_spec(
                    users.drop_first().update(i - 1, v),
                    id2,
                ));
            }
        }
    };
}

/// Replacing one record by another with the same id, email and username
/// keeps the store invariant.
pub proof fn lemma_wf_update_same_keys(s: StoreView, i: int, v: UserView)
    requires
        store_wf(s),
        0 <= i < s.users.len(),
        v.id == s.users[i].id,
        v.email == s.users[i].email,
        v.username == s.users[i].username,
    ensures
        store_wf(StoreView { users: s.users.update(i, v), next_id: s.next_id }),
{
    let updated = s.users.update(i, v);
    assert forall|p: int, q: int| 0 <= p < q < updated.len() implies ((#[trigger] updated[p]).id
        != (#[trigger] updated[q]).id && updated[p].email != updated[q].email
        && updated[p].username != updated[q].username) by {
        assert(s.users[p].id != s.users[q].id);
    };
    assert forall|p: int| 0 <= p < updated.len() implies (#[trigger] updated[p]).id
        < s.next_id by {
        assert(s.users[p].id < s.next_id);
    };
}

/// A user record with its refresh token replaced.
pub open spec fn with_refresh_token(u: UserView, t: Seq<char>) -> UserView {
    UserView {
        id: u.id,
        username: u.username,
        email: u.email,
        password_hash: u.password_hash,
        role: u.role,
        refresh_token: Some(t),
        name: u.name,
        last_name: u.last_name,
        school: u.school,
        class: u.class,
        score: u.score,
        avatar_url: u.avatar_url,
    }
}

/// A user record with its score replaced.
pub open spec fn with_score(u: UserView, score: u64) -> UserView {
    UserView {
        id: u.id,
        username: u.username,
        email: u.email,
        password_hash: u.password_hash,
        role: u.role,
        refresh_token: u.refresh_token,
        name: u.name,
        last_name: u.last_name,
        school: u.school,
        class: u.class,
        score: score,
        avatar_url: u.avatar_url,
    }
}

/// A user record with the present profile fields replaced.
pub open spec fn apply_edit(
    u: UserView,
    school: Option<Seq<char>>,
    name: Option<Seq<char>>,
    last_name: Option<Seq<char>>,
    class: Option<Seq<char>>,
    avatar_url: Option<Seq<char>>,
) -> UserView {
    UserView {
        id: u.id,
        username: u.username,
        email: u.email,
        password_hash: u.password_hash,
        role: u.role,
        refresh_token: u.refresh_token,
        name: match name {
            Some(n) => n,
            None => u.name,
        },
        last_name: match last_name {
            Some(n) => n,
            None => u.last_name,
        },
        school: match school {
            Some(s) => s,
            None => u.school,
        },
        class: match class {
            Some(c) => c,
            None => u.class,
        },
        score: u.score,
        avatar_url: match avatar_url {
            Some(a) => Some(a),
            None => u.avatar_url,
        },
    }
}

/// The record a fresh registration inserts.
pub open spec fn fresh_user_view(
    s: StoreView,
    username: Seq<char>,
    email: Seq<char>,
    password_hash: Seq<char>,
    role: Role,
    name: Seq<char>,
    last_name: Seq<char>,
    school: Seq<char>,
    class: Seq<char>,
) -> UserView {
    UserView {
        id: s.next_id,
        username: username,
        email: email,
        password_hash: password_hash,
        role: role,
        refresh_token: None,
        name: name,
        last_name: last_name,
        school: school,
        class: class,
        score: 0,
        avatar_url: None,
    }
}

/// The in-memory credential store.
pub struct CredentialStore {
    users: Vec<UserRecord>,
    next_id: u64,
}

impl View for CredentialStore {
    type V = StoreView;

    closed spec fn view(&self) -> StoreView {
        StoreView { users: self.users@.map_values(|u: UserRecord| u@), next_id: self.next_id }
    }
}

impl CredentialStore {
    /// An empty store; ids are assigned from 1 upward.
    pub fn new() -> (s: Self)
        ensures
            s@.users == Seq::<UserView>::empty(),
            s@.next_id == 1,
            store_wf(s@),
    {
        let s = CredentialStore { users: Vec::new(), next_id: 1 };
        proof {
            assert(s@.users =~= Seq::<UserView>::empty());
        }
        s
    }

    /// How many records the store holds.
    pub fn user_count(&self) -> (n: usize)
        ensures
            n == self@.users.len(),
    {
        self.users.len()
    }

    /// The index of the record carrying an id, if any.
    fn index_of_id(&self, id: u64) -> (r: Option<usize>)
        ensures
            match r {
                Some(i) => i < self@.users.len() && self@.users[i as int].id == id,
                None => forall|j: int|
                    0 <= j < self@.users.len() ==> (#[trigger] self@.users[j]).id != id,
            },
    {
        let n = self.users.len();
        let mut i: usize = 0;
        while i < n
            invariant
                0 <= i <= n,
                n == self@.users.len(),
                n == self.users.len(),
                forall|j: int| 0 <= j < i ==> (#[trigger] self@.users[j]).id != id,
            decreases n - i,
        {
            if self.users[i].id == id {
                return Some(i);
            }
            i = i + 1;
        }
        None
    }

    /// Looks a user up by email.
    pub fn find_by_email(&self, email: &str) -> (r: Option<UserRecord>)
        ensures
            match r {
                Some(u) => find_by_email_spec(self@.users, email@) == Some(u@),
                None => find_by_email_spec(self@.users, email@) is None,
            },
    {
        let ghost us = self@.users;
        proof {
            assert(us.skip(0) =~= us);
        }
        let n = self.users.len();
        let mut i: usize = 0;
        while i < n
            invariant
                0 <= i <= n,
                n == self.users.len(),
                us == self@.users,
                n == us.len(),
                find_by_email_spec(us, email@) == find_by_email_spec(us.skip(i as int), email@),
            decreases n - i,
        {
            proof {
                assert(us.skip(i as int)[0] == us[i as int]);
            }
            if str_eq(self.users[i].email.as_str(), email) {
                return Some(self.users[i].clone());
            }
            proof {
                assert(us.skip(i as int).drop_first() =~= us.skip(i + 1));
            }
            i = i + 1;
        }
        proof {
            assert(us.skip(n as int) =~= Seq::<UserView>::empty());
        }
        None
    }

    /// Looks a user up by id.
    pub fn find_by_id(&self, id: u64) -> (r: Option<UserRecord>)
        ensures
            match r {
                Some(u) => find_by_id_spec(self@.users, id) == Some(u@),
                None => find_by_id_spec(self@.users, id) is None,
            },
    {
        let ghost us = self@.users;
        proof {
            assert(us.skip(0) =~= us);
        }
        let n = self.users.len();
        let mut i: usize = 0;
        while i < n
            invariant
                0 <= i <= n,
                n == self.users.len(),
                us == self@.users,
                n == us.len(),
                find_by_id_spec(us, id) == find_by_id_spec(us.skip(i as int), id),
            decreases n - i,
        {
            proof {
                assert(us.skip(i as int)[0] == us[i as int]);
            }
            if self.users[i].id == id {
                return Some(self.users[i].clone());
            }
            proof {
                assert(us.skip(i as int).drop_first() =~= us.skip(i + 1));
            }
            i = i + 1;
        }
        proof {
            assert(us.skip(n as int) =~= Seq::<UserView>::empty());
        }
        None
    }

    /// Inserts a fresh user record, assigning it the next id.
    ///
    /// Fails with `Duplicate` when the email or the username is already
    /// taken, and with `Full` when no fresh id is left.
    pub fn insert_user(
        &mut self,
        username: String,
        email: String,
        password_hash: String,
        role: Role,
        name: String,
        last_name: String,
        school: String,
        class: String,
    ) -> (r: Result<UserRecord, StoreError>)
        requires
            store_wf(old(self)@),
        ensures
            store_wf(final(self)@),
            match r {
                Ok(u) => !has_email(old(self)@.users, email@) && !has_username(
                    old(self)@.users,
                    username@,
                ) && old(self)@.next_id < u64::MAX && u@ == fresh_user_view(
                    old(self)@,
                    username@,
                    email@,
                    password_hash@,
                    role,
                    name@,
                    last_name@,
                    school@,
                    class@,
                ) && final(self)@.users == old(self)@.users.push(u@) && final(self)@.next_id == old(
                    self,
                )@.next_id + 1,
                Err(StoreError::Duplicate) => final(self)@ == old(self)@ && (has_email(
                    old(self)@.users,
                    email@,
                ) || has_username(old(self)@.users, username@)),
                Err(StoreError::Full) => final(self)@ == old(self)@ && old(self)@.next_id == u64::MAX
                    && !has_email(old(self)@.users, email@) && !has_username(
                    old(self)@.users,
                    username@,
                ),
            },
    {
        let ghost us = self@.users;
        let n = self.users.len();
        let mut i: usize = 0;
        while i < n
            invariant
                0 <= i <= n,
                n == self.users.len(),
                self@ == old(self)@,
                store_wf(self@),
                us == self@.users,
                n == us.len(),
                forall|j: int|
                    0 <= j < i ==> (#[trigger] us[j]).email != email@ && us[j].username
                        != username@,
            decreases n - i,
        {
            if str_eq(self.users[i].email.as_str(), email.as_str()) {
                proof {
                    assert(us[i as int].email == email@);
                }
                return Err(StoreError::Duplicate);
            }
            if str_eq(self.users[i].username.as_str(), username.as_str()) {
                proof {
                    assert(us[i as int].username == username@);
                }
                return Err(StoreError::Duplicate);
            }
            i = i + 1;
        }
        if self.next_id == u64::MAX {
            return Err(StoreError::Full);
        }
        let id = self.next_id;
        let record = UserRecord {
            id,
            username,
            email,
            password_hash,
            role,
            refresh_token: None,
            name,
            last_name,
            school,
            class,
            score: 0,
            avatar_url: None,
        };
        let result = record.clone();
        self.users.push(record);
        self.next_id = id + 1;
        proof {
            assert(self@.users =~= us.push(result@));
            assert forall|p: int, q: int| 0 <= p < q < self@.users.len() implies ((
            #[trigger] self@.users[p]).id != (#[trigger] self@.users[q]).id
                && self@.users[p].email != self@.users[q].email && self@.users[p].username
                != self@.users[q].username) by {
                if q < us.len() {
                    assert(us[p].id != us[q].id);
                } else {
                    assert(us[p].id < old(self)@.next_id);
                }
            };
            assert forall|p: int| 0 <= p < self@.users.len() implies (#[trigger] self@.users[p]).id
                < self@.next_id by {
                if p < us.len() {
                    assert(us[p].id < old(self)@.next_id);
                }
            };
        }
        Ok(result)
    }

    /// Stores a token as the user's one live refresh token, returning
    /// whether a user with that id exists.
    pub fn set_refresh_token(&mut self, id: u64, token: &str) -> (r: bool)
        requires
            store_wf(old(self)@),
        ensures
            store_wf(final(self)@),
            final(self)@.next_id == old(self)@.next_id,
            r == (find_by_id_spec(old(self)@.users, id) is Some),
            !r ==> final(self)@ == old(self)@,
            r ==> (find_by_id_spec(old(self)@.users, id) matches Some(u) && final(self)@.users.len()
                == old(self)@.users.len() && (forall|id2: u64|
                #[trigger] find_by_id_spec(final(self)@.users, id2) == if id2 == id {
                    Some(with_refresh_token(u, token@))
                } else {
                    find_by_id_spec(old(self)@.users, id2)
                })),
    {
        let ghost us = self@.users;
        match self.index_of_id(id) {
            None => {
                proof {
                    lemma_find_by_id_characterizes(us, id);
                }
                false
            },
            Some(i) => {
                let mut u = self.users[i].clone();
                u.refresh_token = Some(String::from_str(token));
                let ghost uv = u@;
                self.users[i] = u;
                proof {
                    assert(self@.users =~= us.update(i as int, uv));
                    assert(uv == with_refresh_token(us[i as int], token@));
                    lemma_find_by_id_present(us, i as int);
                    lemma_find_by_id_update(us, i as int, uv);
                    lemma_wf_update_same_keys(old(self)@, i as int, uv);
                }
                true
            },
        }
    }

    /// Overwrites the present profile fields of a user, returning the
    /// updated record, or nothing when no user carries the id.
    pub fn update_profile(
        &mut self,
        id: u64,
        school: Option<String>,
        name: Option<String>,
        last_name: Option<String>,
        class: Option<String>,
        avatar_url: Option<String>,
    ) -> (r: Option<UserRecord>)
        requires
            store_wf(old(self)@),
        ensures
            store_wf(final(self)@),
            final(self)@.next_id == old(self)@.next_id,
            r is Some == (find_by_id_spec(old(self)@.users, id) is Some),
            r is None ==> final(self)@ == old(self)@,
            r matches Some(res) ==> (find_by_id_spec(old(self)@.users, id) matches Some(u) && res@
                == apply_edit(
                u,
                opt_str_view(school),
                opt_str_view(name),
                opt_str_view(last_name),
                opt_str_view(class),
                opt_str_view(avatar_url),
            ) && final(self)@.users.len() == old(self)@.users.len() && (forall|id2: u64|
                #[trigger] find_by_id_spec(final(self)@.users, id2) == if id2 == id {
                    Some(res@)
                } else {
                    find_by_id_spec(old(self)@.users, id2)
                })),
    {
        let ghost us = self@.users;
        match self.index_of_id(id) {
            None => {
                proof {
                    lemma_find_by_id_characterizes(us, id);
                }
                None
            },
            Some(i) => {
                let mut u = self.users[i].clone();
                match school {
                    Some(s) => {
                        u.school = s;
                    },
                    None => {},
                }
                match name {
                    Some(s) => {
                        u.name = s;
                    },
                    None => {},
                }
                match last_name {
                    Some(s) => {
                        u.last_name = s;
                    },
                    None => {},
                }
                match class {
                    Some(s) => {
                        u.class = s;
                    },
                    None => {},
                }
                match avatar_url {
                    Some(s) => {
                        u.avatar_url = Some(s);
                    },
                    None => {},
                }
                let ghost uv = u@;
                let result = u.clone();
                self.users[i] = u;
                proof {
                    assert(self@.users =~= us.update(i as int, uv));
                    lemma_find_by_id_present(us, i as int);
                    lemma_find_by_id_update(us, i as int, uv);
                    lemma_wf_update_same_keys(old(self)@, i as int, uv);
                }
                Some(result)
            },
        }
    }

    /// Adds one point to a user's score, returning the updated record, or
    /// nothing when no user carries the id.
    pub fn increment_score(&mut self, id: u64) -> (r: Option<UserRecord>)
        requires
            store_wf(old(self)@),
            find_by_id_spec(old(self)@.users, id) matches Some(u) ==> u.score < u64::MAX,
        ensures
            store_wf(final(self)@),
            final(self)@.next_id == old(self)@.next_id,
            r is Some == (find_by_id_spec(old(self)@.users, id) is Some),
            r is None ==> final(self)@ == old(self)@,
            r matches Some(res) ==> (find_by_id_spec(old(self)@.users, id) matches Some(u) && res@
                == with_score(u, (u.score + 1) as u64) && final(self)@.users.len() == old(
                self,
            )@.users.len() && (forall|id2: u64|
                #[trigger] find_by_id_spec(final(self)@.users, id2) == if id2 == id {
                    Some(res@)
                } else {
                    find_by_id_spec(old(self)@.users, id2)
                })),
    {
        let ghost us = self@.users;
        match self.index_of_id(id) {
            None => {
                proof {
                    lemma_find_by_id_characterizes(us, id);
                }
                None
            },
            Some(i) => {
                proof {
                    lemma_find_by_id_present(us, i as int);
                }
                let mut u = self.users[i].clone();
                u.score = u.score + 1;
                let ghost uv = u@;
                let result = u.clone();
                self.users[i] = u;
                proof {
                    assert(self@.users =~= us.update(i as int, uv));
                    lemma_find_by_id_update(us, i as int, uv);
                    lemma_wf_update_same_keys(old(self)@, i as int, uv);
                }
                Some(result)
            },
        }
    }
}

} // verus!
