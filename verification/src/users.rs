//! The users that are signed in, by their id and by their session.

use crate::clients::User;
use hashbrown::hash_map::DefaultHashBuilder;
use hashbrown::HashMap;
use vstd::prelude::*;

verus! {

/// `hashbrown::HashMap`, as a type whose inside is not looked into.
#[verifier::external_type_specification]
#[verifier::external_body]
#[verifier::reject_recursive_types(K)]
#[verifier::reject_recursive_types(V)]
#[verifier::reject_recursive_types(S)]
pub struct ExHashMap<K, V, S>(HashMap<K, V, S>);

/// `hashbrown::hash_map::DefaultHashBuilder`, the hasher such a map is
/// made with, as a type whose inside is not looked into.
#[verifier::external_type_specification]
#[verifier::external_body]
pub struct ExDefaultHashBuilder(DefaultHashBuilder);

/// The users a table holds, by id.
pub uninterp spec fn user_table(table: HashMap<usize, User>) -> Map<usize, User>;

/// The user ids a table holds, by the text of the session they belong to.
pub uninterp spec fn session_table(table: HashMap<String, usize>) -> Map<Seq<char>, usize>;

/// The table that holds no user.
pub open spec fn no_users() -> Map<usize, User> {
    Map::empty()
}

/// The table that holds no session.
pub open spec fn no_sessions() -> Map<Seq<char>, usize> {
    Map::empty()
}

/// `HashMap::new`: a table that holds nothing.
#[verifier::external_body]
fn users_new() -> (table: HashMap<usize, User>)
    ensures
        user_table(table) == no_users(),
{
    HashMap::new()
}

/// `HashMap::insert`: afterwards the table holds `user` under `id`, in
/// place of what it held there, and every other entry as before.
#[verifier::external_body]
fn users_insert(table: &mut HashMap<usize, User>, id: usize, user: User)
    ensures
        user_table(*final(table)) == user_table(*old(table)).insert(id, user),
{
    table.insert(id, user);
}

/// `HashMap::remove`: afterwards the table holds nothing under `id`, and
/// every other entry as before.
#[verifier::external_body]
fn users_remove(table: &mut HashMap<usize, User>, id: usize)
    ensures
        user_table(*final(table)) == user_table(*old(table)).remove(id),
{
    table.remove(&id);
}

/// `HashMap::get`: the user the table holds under `id`, if it holds one.
#[verifier::external_body]
fn users_get(table: &HashMap<usize, User>, id: usize) -> (out: Option<&User>)
    ensures
        out == if user_table(*table).contains_key(id) {
            Some(&user_table(*table)[id])
        } else {
            None
        },
{
    table.get(&id)
}

/// `HashMap::new`: a table that holds nothing.
#[verifier::external_body]
fn sessions_new() -> (table: HashMap<String, usize>)
    ensures
        session_table(table) == no_sessions(),
{
    HashMap::new()
}

/// `HashMap::insert`: afterwards the table holds `id` under `session`, in
/// place of what it held there, and every other entry as before.
#[verifier::external_body]
fn sessions_insert(table: &mut HashMap<String, usize>, session: String, id: usize)
    ensures
        session_table(*final(table)) == session_table(*old(table)).insert(session@, id),
{
    table.insert(session, id);
}

/// `HashMap::get`: the user id the table holds under `session`, if it
/// holds one.
#[verifier::external_body]
fn sessions_get(table: &HashMap<String, usize>, session: &str) -> (out: Option<usize>)
    ensures
        out == if session_table(*table).contains_key(session@) {
            Some(session_table(*table)[session@])
        } else {
            None
        },
{
    table.get(session).copied()
}

/// The user that `session` belongs to: the one whose id stands under the
/// session, where a user stands under that id.
pub open spec fn user_of_session(
    users: Map<usize, User>,
    sessions: Map<Seq<char>, usize>,
    session: Seq<char>,
) -> Option<User> {
    if sessions.contains_key(session) && users.contains_key(sessions[session]) {
        Some(users[sessions[session]])
    } else {
        None
    }
}

/// The users that are signed in.
pub struct Sessions {
    clients: HashMap<usize, User>,
    sessions: HashMap<String, usize>,
}

impl Sessions {
    /// The users, by id.
    pub closed spec fn users(&self) -> Map<usize, User> {
        user_table(self.clients)
    }

    /// The user ids, by session.
    pub closed spec fn sessions(&self) -> Map<Seq<char>, usize> {
        session_table(self.sessions)
    }

    pub fn new() -> (store: Self)
        ensures
            store.users() == no_users(),
            store.sessions() == no_sessions(),
    {
        Sessions { clients: users_new(), sessions: sessions_new() }
    }

    /// Signs a user in under a session.
    pub fn add_user(&mut self, session_id: String, user: User)
        ensures
            final(self).users() == old(self).users().insert(user.id, user),
            final(self).sessions() == old(self).sessions().insert(session_id@, user.id),
    {
        let uid: usize = user.id;
        users_insert(&mut self.clients, uid, user);
        sessions_insert(&mut self.sessions, session_id, uid);
    }

    /// Strikes a user; the sessions that name the user stay.
    pub fn remove_user(&mut self, id: usize)
        ensures
            final(self).users() == old(self).users().remove(id),
            final(self).sessions() == old(self).sessions(),
    {
        users_remove(&mut self.clients, id);
    }

    /// The user with this id.
    pub fn get_user_by_id(&self, id: usize) -> (res: Option<User>)
        ensures
            res == if self.users().contains_key(id) {
                Some(self.users()[id])
            } else {
                None
            },
    {
        match users_get(&self.clients, id) {
            Some(user) => Some(user.clone()),
            None => None,
        }
    }

    /// The user that a session belongs to.
    pub fn get_user_by_session(&self, sess: &str) -> (res: Option<User>)
        ensures
            res == user_of_session(self.users(), self.sessions(), sess@),
    {
        match sessions_get(&self.sessions, sess) {
            None => None,
            Some(id) => self.get_user_by_id(id),
        }
    }
}

} // verus!
