//! The user records that credentials are held against: every user has an
//! identifier and a name of its own, and the hash of its password.
//!
//! `CredentialStore` keeps the records of one process and states what any
//! store of users must do: look a user up by name, find the name behind an
//! identifier, and replace a password hash.

use vstd::prelude::*;

use crate::text::optional_text;

verus! {

/// A user as it is stored.
#[derive(Debug)]
pub struct User {
    pub id: String,
    pub username: String,
    pub password_hash: String,
}

/// The three texts of a user.
pub struct UserRecord {
    pub id: Seq<char>,
    pub username: Seq<char>,
    pub password_hash: Seq<char>,
}

impl View for User {
    type V = UserRecord;

    open spec fn view(&self) -> UserRecord {
        UserRecord { id: self.id@, username: self.username@, password_hash: self.password_hash@ }
    }
}

/// The names of the table of users and of its columns.
pub enum Users {
    Table,
    Id,
    Username,
    PasswordHash,
}

impl Users {
    /// The name of the table or column in the database.
    pub open spec fn spec_name(self) -> Seq<char> {
        match self {
            Users::Table => "users"@,
            Users::Id => "id"@,
            Users::Username => "username"@,
            Users::PasswordHash => "password_hash"@,
        }
    }

    /// The name of the table or column in the database.
    pub fn name(&self) -> (text: &'static str)
        ensures
            text@ == self.spec_name(),
    {
        match self {
            Users::Table => "users",
            Users::Id => "id",
            Users::Username => "username",
            Users::PasswordHash => "password_hash",
        }
    }
}

/// No identifier and no name occurs twice.
pub open spec fn users_distinct(users: Seq<UserRecord>) -> bool {
    forall|i: int, j: int|
        0 <= i < j < users.len() ==> (#[trigger] users[i]).username != (#[trigger] users[j]).username
            && users[i].id != users[j].id
}

/// Some user is called `username`.
pub open spec fn has_username(users: Seq<UserRecord>, username: Seq<char>) -> bool {
    exists|i: int| 0 <= i < users.len() && (#[trigger] users[i]).username == username
}

/// Some user has the identifier `id`.
pub open spec fn has_id(users: Seq<UserRecord>, id: Seq<char>) -> bool {
    exists|i: int| 0 <= i < users.len() && (#[trigger] users[i]).id == id
}

/// Where a user called `username` stands.
pub open spec fn index_of_username(users: Seq<UserRecord>, username: Seq<char>) -> int {
    choose|i: int| 0 <= i < users.len() && (#[trigger] users[i]).username == username
}

/// Where a user with the identifier `id` stands.
pub open spec fn index_of_id(users: Seq<UserRecord>, id: Seq<char>) -> int {
    choose|i: int| 0 <= i < users.len() && (#[trigger] users[i]).id == id
}

/// Identifier and password hash of the user called `username`.
pub open spec fn stored_credentials(users: Seq<UserRecord>, username: Seq<char>) -> Option<
    (Seq<char>, Seq<char>),
> {
    if has_username(users, username) {
        let user = users[index_of_username(users, username)];
        Some((user.id, user.password_hash))
    } else {
        None
    }
}

/// The name of the user with the identifier `id`.
pub open spec fn username_of(users: Seq<UserRecord>, id: Seq<char>) -> Option<Seq<char>> {
    if has_id(users, id) {
        Some(users[index_of_id(users, id)].username)
    } else {
        None
    }
}

/// The users after the one with the identifier `id` got a new password
/// hash; the same users where there is none.
pub open spec fn with_password_hash(
    users: Seq<UserRecord>,
    id: Seq<char>,
    password_hash: Seq<char>,
) -> Seq<UserRecord> {
    if has_id(users, id) {
        let i = index_of_id(users, id);
        users.update(i, UserRecord { password_hash, ..users[i] })
    } else {
        users
    }
}

/// Views of two optional texts side by side.
pub open spec fn optional_pair(pair: Option<(String, String)>) -> Option<(Seq<char>, Seq<char>)> {
    match pair {
        Some((a, b)) => Some((a@, b@)),
        None => None,
    }
}

/// In a table without doubles, the user at `i` is the one its name leads to.
pub proof fn lemma_index_of_username(users: Seq<UserRecord>, i: int)
    requires
        users_distinct(users),
        0 <= i < users.len(),
    ensures
        has_username(users, users[i].username),
        index_of_username(users, users[i].username) == i,
        stored_credentials(users, users[i].username) == Some((users[i].id, users[i].password_hash)),
{
    let k = index_of_username(users, users[i].username);
    assert(users[k].username == users[i].username);
}

/// In a table without doubles, the user at `i` is the one its identifier
/// leads to.
pub proof fn lemma_index_of_id(users: Seq<UserRecord>, i: int)
    requires
        users_distinct(users),
        0 <= i < users.len(),
    ensures
        has_id(users, users[i].id),
        index_of_id(users, users[i].id) == i,
        username_of(users, users[i].id) == Some(users[i].username),
{
    let k = index_of_id(users, users[i].id);
    assert(users[k].id == users[i].id);
}

/// The user records, in the order in which they were stored.
pub struct CredentialStore {
    users: Vec<User>,
}

impl View for CredentialStore {
    type V = Seq<UserRecord>;

    closed spec fn view(&self) -> Seq<UserRecord> {
        Seq::new(self.users.len() as nat, |i: int| self.users[i]@)
    }
}

impl CredentialStore {
    /// No identifier and no name occurs twice. Every store that `new` made
    /// and these methods changed is of this kind.
    pub open spec fn wf(&self) -> bool {
        users_distinct(self@)
    }

    /// A store without users.
    pub fn new() -> (store: Self)
        ensures
            store.wf(),
            store@ == Seq::<UserRecord>::empty(),
    {
        let store = CredentialStore { users: Vec::new() };
        assert(store@ =~= Seq::<UserRecord>::empty());
        store
    }

    fn position_of_username(&self, username: &String) -> (r: Option<usize>)
        requires
            self.wf(),
        ensures
            match r {
                Some(i) => i < self@.len() && self@[i as int].username == username@
                    && has_username(self@, username@) && index_of_username(self@, username@) == i,
                None => !has_username(self@, username@),
            },
    {
        let mut i: usize = 0;
        while i < self.users.len()
            invariant
                self.wf(),
                i <= self.users.len(),
                self@.len() == self.users.len(),
                forall|k: int| 0 <= k < i ==> (#[trigger] self@[k]).username != username@,
            decreases self.users.len() - i,
        {
            if self.users[i].username == *username {
                proof {
                    lemma_index_of_username(self@, i as int);
                }
                return Some(i);
            }
            i += 1;
        }
        None
    }

    fn position_of_id(&self, id: &String) -> (r: Option<usize>)
        requires
            self.wf(),
        ensures
            match r {
                Some(i) => i < self@.len() && self@[i as int].id == id@ && has_id(self@, id@)
                    && index_of_id(self@, id@) == i,
                None => !has_id(self@, id@),
            },
    {
        let mut i: usize = 0;
        while i < self.users.len()
            invariant
                self.wf(),
                i <= self.users.len(),
                self@.len() == self.users.len(),
                forall|k: int| 0 <= k < i ==> (#[trigger] self@[k]).id != id@,
            decreases self.users.len() - i,
        {
            if self.users[i].id == *id {
                proof {
                    lemma_index_of_id(self@, i as int);
                }
                return Some(i);
            }
            i += 1;
        }
        None
    }

    /// Stores `user` behind the others, unless its name or its identifier is
    /// taken: then nothing changes and the answer is `false`.
    pub fn insert(&mut self, user: User) -> (stored: bool)
        requires
            old(self).wf(),
        ensures
            final(self).wf(),
            stored == (!has_username(old(self)@, user@.username) && !has_id(old(self)@, user@.id)),
            final(self)@ == (if stored {
                old(self)@.push(user@)
            } else {
                old(self)@
            }),
    {
        if self.position_of_username(&user.username).is_some() {
            return false;
        }
        if self.position_of_id(&user.id).is_some() {
            return false;
        }
        self.users.push(user);
        assert(self@ =~= old(self)@.push(user@));
        true
    }

    /// Identifier and password hash of the user called `username`.
    pub fn get_store_credentials(&self, username: &str) -> (r: Option<(String, String)>)
        requires
            self.wf(),
        ensures
            optional_pair(r) == stored_credentials(self@, username@),
    {
        let name = username.to_owned();
        match self.position_of_username(&name) {
            Some(i) => Some((self.users[i].id.clone(), self.users[i].password_hash.clone())),
            None => None,
        }
    }

    /// The name of the user with the identifier `user_id`.
    pub fn get_username(&self, user_id: &str) -> (r: Option<String>)
        requires
            self.wf(),
        ensures
            optional_text(r) == username_of(self@, user_id@),
    {
        let id = user_id.to_owned();
        match self.position_of_id(&id) {
            Some(i) => Some(self.users[i].username.clone()),
            None => None,
        }
    }

    /// Replaces the password hash of the user with the identifier `id`.
    /// `false` says that there is no such user and nothing changed.
    pub fn change_password(&mut self, id: &str, password_hash: String) -> (changed: bool)
        requires
            old(self).wf(),
        ensures
            final(self).wf(),
            changed == has_id(old(self)@, id@),
            final(self)@ == with_password_hash(old(self)@, id@, password_hash@),
    {
        let key = id.to_owned();
        match self.position_of_id(&key) {
            Some(i) => {
                let username = self.users[i].username.clone();
                self.users.set(i, User { id: key, username, password_hash });
                assert(self@ =~= with_password_hash(old(self)@, id@, password_hash@));
                true
            },
            None => false,
        }
    }
}

} // verus!
