//! The store as a value: three tables, and what holds of their rows.

use vstd::prelude::*;
use crate::db::rocketchat_server::{
    servers_well_formed,
    valid_server_id,
    RocketchatServer,
    RocketchatServerView,
};
use crate::db::user::{users_well_formed, User, UserView};
use crate::db::user_on_rocketchat_server::{
    same_key,
    users_on_servers_well_formed,
    UserOnRocketchatServer,
    UserOnRocketchatServerView,
};

verus! {

/// The records that the bridge keeps.
#[derive(Debug, PartialEq, Eq)]
pub struct Store {
    /// The Rocket.Chat servers, in the order in which they were inserted.
    pub rocketchat_servers: Vec<RocketchatServer>,
    /// The Matrix users, in the order in which they were inserted.
    pub users: Vec<User>,
    /// The users on Rocket.Chat servers, in the order in which they were inserted.
    pub users_on_rocketchat_servers: Vec<UserOnRocketchatServer>,
}

/// The mathematical value of a [`Store`].
pub struct StoreView {
    /// The Rocket.Chat servers.
    pub rocketchat_servers: Seq<RocketchatServerView>,
    /// The Matrix users.
    pub users: Seq<UserView>,
    /// The users on Rocket.Chat servers.
    pub users_on_rocketchat_servers: Seq<UserOnRocketchatServerView>,
}

impl DeepView for Store {
    type V = StoreView;

    open spec fn deep_view(&self) -> StoreView {
        StoreView {
            rocketchat_servers: self.rocketchat_servers.deep_view(),
            users: self.users.deep_view(),
            users_on_rocketchat_servers: self.users_on_rocketchat_servers.deep_view(),
        }
    }
}

/// What holds of a store: each table keeps its keys and its other unique columns apart.
pub open spec fn well_formed(store: StoreView) -> bool {
    &&& servers_well_formed(store.rocketchat_servers)
    &&& users_well_formed(store.users)
    &&& users_on_servers_well_formed(store.users_on_rocketchat_servers)
}

impl Store {
    /// Whether this store is well formed.
    pub open spec fn wf(&self) -> bool {
        well_formed(self.deep_view())
    }

    /// A store without records.
    pub fn new() -> (store: Store)
        ensures
            store.wf(),
            store.deep_view().rocketchat_servers == Seq::<RocketchatServerView>::empty(),
            store.deep_view().users == Seq::<UserView>::empty(),
            store.deep_view().users_on_rocketchat_servers == Seq::<
                UserOnRocketchatServerView,
            >::empty(),
    {
        let store = Store {
            rocketchat_servers: Vec::new(),
            users: Vec::new(),
            users_on_rocketchat_servers: Vec::new(),
        };
        store
    }
}

/// Whether two servers can stand in one table: they differ in their ids, in their addresses
/// and, where both have one, in their tokens.
pub open spec fn servers_apart(a: RocketchatServerView, b: RocketchatServerView) -> bool {
    &&& a.id != b.id
    &&& a.rocketchat_url != b.rocketchat_url
    &&& a.rocketchat_token is Some && b.rocketchat_token is Some ==> a.rocketchat_token
        != b.rocketchat_token
}

/// Whether the server at `at` can stand in one table with each server before it.
fn server_stands_apart(servers: &Vec<RocketchatServer>, at: usize) -> (ok: bool)
    requires
        at < servers.len(),
    ensures
        ok == forall|i: int| 0 <= i < at ==> servers_apart(#[trigger] servers.deep_view()[i], servers.deep_view()[at as int]),
{
    let mut i: usize = 0;
    while i < at
        invariant
            i <= at < servers.len(),
            forall|k: int| 0 <= k < i ==> servers_apart(#[trigger] servers.deep_view()[k], servers.deep_view()[at as int]),
        decreases at - i,
    {
        let same_token = match (&servers[i].rocketchat_token, &servers[at].rocketchat_token) {
            (Some(a), Some(b)) => *a == *b,
            _ => false,
        };
        if servers[i].id == servers[at].id || servers[i].rocketchat_url == servers[at].rocketchat_url
            || same_token {
            assert(!servers_apart(servers.deep_view()[i as int], servers.deep_view()[at as int]));
            return false;
        }
        i = i + 1;
    }
    true
}

/// Whether the table of servers is well formed.
fn servers_are_well_formed(servers: &Vec<RocketchatServer>) -> (ok: bool)
    ensures
        ok == servers_well_formed(servers.deep_view()),
{
    let mut j: usize = 0;
    while j < servers.len()
        invariant
            j <= servers.len(),
            forall|k: int| 0 <= k < j ==> valid_server_id((#[trigger] servers.deep_view()[k]).id),
            forall|i: int, k: int|
                0 <= i < k < j ==> servers_apart(
                    #[trigger] servers.deep_view()[i],
                    #[trigger] servers.deep_view()[k],
                ),
        decreases servers.len() - j,
    {
        if !RocketchatServer::is_valid_id(servers[j].id.as_str()) {
            assert(!valid_server_id(servers.deep_view()[j as int].id));
            return false;
        }
        if !server_stands_apart(servers, j) {
            return false;
        }
        j = j + 1;
    }
    true
}

/// Whether the table of users is well formed.
fn users_are_well_formed(users: &Vec<User>) -> (ok: bool)
    ensures
        ok == users_well_formed(users.deep_view()),
{
    let mut j: usize = 0;
    while j < users.len()
        invariant
            j <= users.len(),
            forall|i: int, k: int|
                0 <= i < k < j ==> (#[trigger] users.deep_view()[i]).matrix_user_id != (
                #[trigger] users.deep_view()[k]).matrix_user_id,
        decreases users.len() - j,
    {
        let mut i: usize = 0;
        while i < j
            invariant
                i <= j < users.len(),
                forall|k: int|
                    0 <= k < i ==> (#[trigger] users.deep_view()[k]).matrix_user_id
                        != users.deep_view()[j as int].matrix_user_id,
            decreases j - i,
        {
            if users[i].matrix_user_id == users[j].matrix_user_id {
                assert(users.deep_view()[i as int].matrix_user_id
                    == users.deep_view()[j as int].matrix_user_id);
                return false;
            }
            i = i + 1;
        }
        j = j + 1;
    }
    true
}

/// Whether the table of users on servers is well formed.
fn users_on_servers_are_well_formed(rows: &Vec<UserOnRocketchatServer>) -> (ok: bool)
    ensures
        ok == users_on_servers_well_formed(rows.deep_view()),
{
    let mut j: usize = 0;
    while j < rows.len()
        invariant
            j <= rows.len(),
            forall|i: int, k: int|
                0 <= i < k < j ==> !same_key(
                    #[trigger] rows.deep_view()[i],
                    #[trigger] rows.deep_view()[k],
                ),
        decreases rows.len() - j,
    {
        let mut i: usize = 0;
        while i < j
            invariant
                i <= j < rows.len(),
                forall|k: int|
                    0 <= k < i ==> !same_key(#[trigger] rows.deep_view()[k], rows.deep_view()[j as int]),
            decreases j - i,
        {
            if rows[i].matrix_user_id == rows[j].matrix_user_id && rows[i].rocketchat_server_id
                == rows[j].rocketchat_server_id {
                assert(same_key(rows.deep_view()[i as int], rows.deep_view()[j as int]));
                return false;
            }
            i = i + 1;
        }
        j = j + 1;
    }
    true
}

impl Store {
    /// Decides whether this store is well formed.
    pub fn is_well_formed(&self) -> (ok: bool)
        ensures
            ok == self.wf(),
    {
        servers_are_well_formed(&self.rocketchat_servers) && users_are_well_formed(&self.users)
            && users_on_servers_are_well_formed(&self.users_on_rocketchat_servers)
    }
}

impl Clone for Store {
    fn clone(&self) -> (copy: Self)
        ensures
            copy.deep_view() == self.deep_view(),
    {
        let copy = Store {
            rocketchat_servers: self.rocketchat_servers.clone(),
            users: self.users.clone(),
            users_on_rocketchat_servers: self.users_on_rocketchat_servers.clone(),
        };
        copy
    }
}

} // verus!
