//! Users on Rocket.Chat servers: which Matrix user stands for which Rocket.Chat user, and
//! the credentials of those who logged in.

use vstd::prelude::*;
use crate::db::store::{Store, StoreView};
use crate::errors::{user_on_rocketchat_server_not_found, Error};
use crate::seqs::{find_first, first_match, lemma_first_match, lemma_first_match_is_first};
use crate::text::text;

verus! {

/// A Matrix user on a Rocket.Chat server.
#[derive(Debug, PartialEq, Eq)]
pub struct UserOnRocketchatServer {
    /// Whether the bridge made the Matrix user, to stand for a user of the Rocket.Chat server.
    pub is_virtual_user: bool,
    /// The user's id on the homeserver.
    pub matrix_user_id: String,
    /// The id of the Rocket.Chat server.
    pub rocketchat_server_id: String,
    /// The user's id on the Rocket.Chat server, once it is known.
    pub rocketchat_user_id: Option<String>,
    /// The token with which the bridge acts for the user on the Rocket.Chat server.
    pub rocketchat_auth_token: Option<String>,
    /// The user's name on the Rocket.Chat server, once it is known.
    pub rocketchat_username: Option<String>,
}

/// The mathematical value of a [`UserOnRocketchatServer`].
pub struct UserOnRocketchatServerView {
    /// Whether the bridge made the Matrix user.
    pub is_virtual_user: bool,
    /// The user's id on the homeserver.
    pub matrix_user_id: Seq<char>,
    /// The id of the Rocket.Chat server.
    pub rocketchat_server_id: Seq<char>,
    /// The user's id on the Rocket.Chat server.
    pub rocketchat_user_id: Option<Seq<char>>,
    /// The token with which the bridge acts for the user.
    pub rocketchat_auth_token: Option<Seq<char>>,
    /// The user's name on the Rocket.Chat server.
    pub rocketchat_username: Option<Seq<char>>,
}

impl DeepView for UserOnRocketchatServer {
    type V = UserOnRocketchatServerView;

    open spec fn deep_view(&self) -> UserOnRocketchatServerView {
        UserOnRocketchatServerView {
            is_virtual_user: self.is_virtual_user,
            matrix_user_id: self.matrix_user_id@,
            rocketchat_server_id: self.rocketchat_server_id@,
            rocketchat_user_id: self.rocketchat_user_id.deep_view(),
            rocketchat_auth_token: self.rocketchat_auth_token.deep_view(),
            rocketchat_username: self.rocketchat_username.deep_view(),
        }
    }
}

impl Clone for UserOnRocketchatServer {
    fn clone(&self) -> (copy: Self)
        ensures
            copy.deep_view() == self.deep_view(),
    {
        UserOnRocketchatServer {
            is_virtual_user: self.is_virtual_user,
            matrix_user_id: self.matrix_user_id.clone(),
            rocketchat_server_id: self.rocketchat_server_id.clone(),
            rocketchat_user_id: self.rocketchat_user_id.clone(),
            rocketchat_auth_token: self.rocketchat_auth_token.clone(),
            rocketchat_username: self.rocketchat_username.clone(),
        }
    }
}

/// Whether the user is logged in on the server: the record holds both the user's id on
/// the server and a token.
pub open spec fn logged_in(user: UserOnRocketchatServerView) -> bool {
    user.rocketchat_user_id is Some && user.rocketchat_auth_token is Some
}

/// Whether two records are of the same user on the same server.
pub open spec fn same_key(a: UserOnRocketchatServerView, b: UserOnRocketchatServerView) -> bool {
    a.matrix_user_id == b.matrix_user_id && a.rocketchat_server_id == b.rocketchat_server_id
}

/// What holds of the table: no two records are of the same user on the same server.
pub open spec fn users_on_servers_well_formed(rows: Seq<UserOnRocketchatServerView>) -> bool {
    forall|i: int, j: int| 0 <= i < j < rows.len() ==> !same_key(#[trigger] rows[i], #[trigger] rows[j])
}

/// The record of the given user on the given server, if the table holds one.
pub open spec fn user_on_server(
    rows: Seq<UserOnRocketchatServerView>,
    matrix_user_id: Seq<char>,
    rocketchat_server_id: Seq<char>,
) -> Option<UserOnRocketchatServerView> {
    find_first(
        rows,
        |r: UserOnRocketchatServerView|
            r.matrix_user_id == matrix_user_id && r.rocketchat_server_id == rocketchat_server_id,
    )
}

/// The first record of the given server whose user has the given id there and is virtual
/// or not as asked, if the table holds one.
pub open spec fn user_by_rocketchat_user_id(
    rows: Seq<UserOnRocketchatServerView>,
    rocketchat_server_id: Seq<char>,
    rocketchat_user_id: Seq<char>,
    is_virtual_user: bool,
) -> Option<UserOnRocketchatServerView> {
    find_first(
        rows,
        |r: UserOnRocketchatServerView|
            r.rocketchat_server_id == rocketchat_server_id && r.rocketchat_user_id == Some(
                rocketchat_user_id,
            ) && r.is_virtual_user == is_virtual_user,
    )
}

/// The table with `row` in it: in the place of the record of the same user on the same
/// server, if there is one, else at the end.
pub open spec fn upserted(
    rows: Seq<UserOnRocketchatServerView>,
    row: UserOnRocketchatServerView,
) -> Seq<UserOnRocketchatServerView> {
    let at = first_match(
        rows,
        |r: UserOnRocketchatServerView|
            r.matrix_user_id == row.matrix_user_id && r.rocketchat_server_id
                == row.rocketchat_server_id,
    );
    if at < rows.len() {
        rows.update(at, row)
    } else {
        rows.push(row)
    }
}

/// A table that is well formed is still so after an upsert.
pub proof fn lemma_upserted_well_formed(
    rows: Seq<UserOnRocketchatServerView>,
    row: UserOnRocketchatServerView,
)
    requires
        users_on_servers_well_formed(rows),
    ensures
        users_on_servers_well_formed(upserted(rows, row)),
{
    let pred = |r: UserOnRocketchatServerView|
        r.matrix_user_id == row.matrix_user_id && r.rocketchat_server_id
            == row.rocketchat_server_id;
    lemma_first_match_is_first(rows, pred, 0);
    let at = first_match(rows, pred);
    let after = upserted(rows, row);
    assert forall|i: int, j: int| 0 <= i < j < after.len() implies !same_key(
        #[trigger] after[i],
        #[trigger] after[j],
    ) by {
        let new_at = if at < rows.len() {
            at
        } else {
            rows.len() as int
        };
        if i != new_at && j != new_at {
            assert(after[j] == rows[j]);
        } else {
            let other = if i == new_at {
                j
            } else {
                i
            };
            if at < rows.len() {
                if other < at {
                    assert(!same_key(rows[other], rows[at]));
                } else {
                    assert(!same_key(rows[at], rows[other]));
                }
            } else {
                assert(!pred(rows[other]));
            }
        }
    }
}

/// A second upsert of the same record changes nothing, and a read after an upsert finds
/// the record that was written last.
pub proof fn lemma_upsert_idempotent(
    rows: Seq<UserOnRocketchatServerView>,
    row: UserOnRocketchatServerView,
)
    ensures
        upserted(upserted(rows, row), row) == upserted(rows, row),
        user_on_server(upserted(rows, row), row.matrix_user_id, row.rocketchat_server_id) == Some(
            row,
        ),
{
    let pred = |r: UserOnRocketchatServerView|
        r.matrix_user_id == row.matrix_user_id && r.rocketchat_server_id
            == row.rocketchat_server_id;
    lemma_first_match_is_first(rows, pred, 0);
    let at = first_match(rows, pred);
    let once = upserted(rows, row);
    assert forall|j: int| 0 <= j < at implies !pred(#[trigger] once[j]) by {
        assert(once[j] == rows[j]);
    }
    lemma_first_match(once, pred, at);
}

/// What an upsert does to the number of records: the record of a user who has none on the
/// server is added at the end; the record of a user who has one takes its place, and the
/// table is as long as before. An upsert of the record that the table holds changes
/// nothing.
pub proof fn lemma_upsert_adds_at_most_one(
    rows: Seq<UserOnRocketchatServerView>,
    row: UserOnRocketchatServerView,
)
    ensures
        match user_on_server(rows, row.matrix_user_id, row.rocketchat_server_id) {
            None => upserted(rows, row) == rows.push(row),
            Some(known) => upserted(rows, row).len() == rows.len() && (known == row ==> upserted(
                rows,
                row,
            ) == rows),
        },
{
    let pred = |r: UserOnRocketchatServerView|
        r.matrix_user_id == row.matrix_user_id && r.rocketchat_server_id
            == row.rocketchat_server_id;
    lemma_first_match_is_first(rows, pred, 0);
    let at = first_match(rows, pred);
    if at < rows.len() && rows[at] == row {
        assert(rows.update(at, row) =~= rows);
    }
}

/// The index of the record of the given user on the given server; the number of records
/// where there is none.
fn position(rows: &Vec<UserOnRocketchatServer>, matrix_user_id: &String, server_id: &String) -> (at:
    usize)
    ensures
        at == first_match(
            rows.deep_view(),
            |r: UserOnRocketchatServerView|
                r.matrix_user_id == matrix_user_id@ && r.rocketchat_server_id == server_id@,
        ),
        at <= rows.len(),
{
    let ghost pred = |r: UserOnRocketchatServerView|
        r.matrix_user_id == matrix_user_id@ && r.rocketchat_server_id == server_id@;
    let mut i: usize = 0;
    while i < rows.len()
        invariant
            i <= rows.len(),
            pred == |r: UserOnRocketchatServerView|
                r.matrix_user_id == matrix_user_id@ && r.rocketchat_server_id == server_id@,
            forall|j: int| 0 <= j < i ==> !pred(#[trigger] rows.deep_view()[j]),
        decreases rows.len() - i,
    {
        if rows[i].matrix_user_id == *matrix_user_id && rows[i].rocketchat_server_id == *server_id {
            proof {
                lemma_first_match(rows.deep_view(), pred, i as int);
            }
            return i;
        }
        i = i + 1;
    }
    proof {
        lemma_first_match(rows.deep_view(), pred, i as int);
    }
    i
}

impl UserOnRocketchatServer {
    /// Whether the user is logged in on the server.
    pub fn is_logged_in(&self) -> (yes: bool)
        ensures
            yes == logged_in(self.deep_view()),
    {
        self.rocketchat_user_id.is_some() && self.rocketchat_auth_token.is_some()
    }

    /// Writes `row` into the store: over the record of the same user on the same server, if
    /// there is one, else as a new record.
    pub fn upsert(store: &mut Store, row: &UserOnRocketchatServer) -> (written:
        UserOnRocketchatServer)
        requires
            old(store).wf(),
        ensures
            final(store).wf(),
            written.deep_view() == row.deep_view(),
            final(store).deep_view() == (StoreView {
                users_on_rocketchat_servers: upserted(
                    old(store).deep_view().users_on_rocketchat_servers,
                    row.deep_view(),
                ),
                ..old(store).deep_view()
            }),
    {
        let ghost rows = store.deep_view().users_on_rocketchat_servers;
        let at = position(
            &store.users_on_rocketchat_servers,
            &row.matrix_user_id,
            &row.rocketchat_server_id,
        );
        proof {
            lemma_upserted_well_formed(rows, row.deep_view());
        }
        if at < store.users_on_rocketchat_servers.len() {
            store.users_on_rocketchat_servers.set(at, row.clone());
        } else {
            store.users_on_rocketchat_servers.push(row.clone());
        }
        assert(store.deep_view().users_on_rocketchat_servers =~= upserted(rows, row.deep_view()));
        row.clone()
    }

    /// The record of the given user on the given server, or the error that there is none.
    pub fn find(store: &Store, matrix_user_id: &str, rocketchat_server_id: &str) -> (found: Result<
        UserOnRocketchatServer,
        Error,
    >)
        ensures
            match found {
                Ok(row) => user_on_server(
                    store.deep_view().users_on_rocketchat_servers,
                    matrix_user_id@,
                    rocketchat_server_id@,
                ) == Some(row.deep_view()),
                Err(e) => {
                    &&& user_on_server(
                        store.deep_view().users_on_rocketchat_servers,
                        matrix_user_id@,
                        rocketchat_server_id@,
                    ) is None
                    &&& e.deep_view() == user_on_rocketchat_server_not_found(
                        matrix_user_id@,
                        rocketchat_server_id@,
                    )
                },
            },
    {
        let user = text(matrix_user_id);
        let server = text(rocketchat_server_id);
        let at = position(&store.users_on_rocketchat_servers, &user, &server);
        if at < store.users_on_rocketchat_servers.len() {
            Ok(store.users_on_rocketchat_servers[at].clone())
        } else {
            Err(Error::user_on_rocketchat_server_not_found(user, server))
        }
    }

    /// The first record of the given server whose user has the given id there and is
    /// virtual or not as asked, if the store holds one.
    pub fn find_by_rocketchat_user_id(
        store: &Store,
        rocketchat_server_id: &str,
        rocketchat_user_id: &str,
        is_virtual_user: bool,
    ) -> (found: Option<UserOnRocketchatServer>)
        ensures
            found.deep_view() == user_by_rocketchat_user_id(
                store.deep_view().users_on_rocketchat_servers,
                rocketchat_server_id@,
                rocketchat_user_id@,
                is_virtual_user,
            ),
    {
        let server = text(rocketchat_server_id);
        let user = text(rocketchat_user_id);
        let rows = &store.users_on_rocketchat_servers;
        let ghost pred = |r: UserOnRocketchatServerView|
            r.rocketchat_server_id == rocketchat_server_id@ && r.rocketchat_user_id == Some(
                rocketchat_user_id@,
            ) && r.is_virtual_user == is_virtual_user;
        let mut i: usize = 0;
        while i < rows.len()
            invariant
                i <= rows.len(),
                rows.deep_view() == store.deep_view().users_on_rocketchat_servers,
                server@ == rocketchat_server_id@,
                user@ == rocketchat_user_id@,
                pred == |r: UserOnRocketchatServerView|
                    r.rocketchat_server_id == rocketchat_server_id@ && r.rocketchat_user_id == Some(
                        rocketchat_user_id@,
                    ) && r.is_virtual_user == is_virtual_user,
                forall|j: int| 0 <= j < i ==> !pred(#[trigger] rows.deep_view()[j]),
            decreases rows.len() - i,
        {
            let same_user = match &rows[i].rocketchat_user_id {
                Some(id) => *id == user,
                None => false,
            };
            if rows[i].rocketchat_server_id == server && same_user && rows[i].is_virtual_user
                == is_virtual_user {
                proof {
                    lemma_first_match(rows.deep_view(), pred, i as int);
                }
                return Some(rows[i].clone());
            }
            i = i + 1;
        }
        proof {
            lemma_first_match(rows.deep_view(), pred, i as int);
        }
        None
    }
}

} // verus!
