//! Rocket.Chat servers: the id that a user chose, the address, and the token that the server
//! sends with its messages once it is connected.

use vstd::prelude::*;
use crate::db::store::{Store, StoreView};
use crate::errors::{silent, Error, ErrorKind, ErrorKindView, ErrorView};
use crate::seqs::{
    find_first,
    first_match,
    lemma_first_match,
    lemma_first_match_is_first,
};
use crate::text::{chars_of, text};
use crate::MAX_ROCKETCHAT_SERVER_ID_LENGTH;

verus! {

/// A Rocket.Chat server.
#[derive(Debug, PartialEq, Eq)]
pub struct RocketchatServer {
    /// The id that the connecting user chose.
    pub id: String,
    /// The address of the server.
    pub rocketchat_url: String,
    /// The token that the server sends with its messages; `None` while it is not connected.
    pub rocketchat_token: Option<String>,
}

/// The mathematical value of a [`RocketchatServer`].
pub struct RocketchatServerView {
    /// The id that the connecting user chose.
    pub id: Seq<char>,
    /// The address of the server.
    pub rocketchat_url: Seq<char>,
    /// The token that the server sends with its messages.
    pub rocketchat_token: Option<Seq<char>>,
}

impl DeepView for RocketchatServer {
    type V = RocketchatServerView;

    open spec fn deep_view(&self) -> RocketchatServerView {
        RocketchatServerView {
            id: self.id@,
            rocketchat_url: self.rocketchat_url@,
            rocketchat_token: self.rocketchat_token.deep_view(),
        }
    }
}

impl Clone for RocketchatServer {
    fn clone(&self) -> (copy: Self)
        ensures
            copy.deep_view() == self.deep_view(),
    {
        RocketchatServer {
            id: self.id.clone(),
            rocketchat_url: self.rocketchat_url.clone(),
            rocketchat_token: self.rocketchat_token.clone(),
        }
    }
}

/// Whether `c` may occur in the id of a server: a digit, a lower-case ASCII letter or an
/// underscore.
pub open spec fn is_server_id_char(c: char) -> bool {
    ('0' <= c && c <= '9') || ('a' <= c && c <= 'z') || c == '_'
}

/// Whether `id` can be the id of a server: not empty, not longer than the limit, and made
/// of the characters that are allowed.
pub open spec fn valid_server_id(id: Seq<char>) -> bool {
    &&& 0 < id.len() <= MAX_ROCKETCHAT_SERVER_ID_LENGTH
    &&& forall|i: int| 0 <= i < id.len() ==> is_server_id_char(#[trigger] id[i])
}

/// What holds of the table of servers: each id has the shape of an id; no two servers have
/// the same id, the same address or, where both have one, the same token.
pub open spec fn servers_well_formed(servers: Seq<RocketchatServerView>) -> bool {
    &&& forall|i: int| 0 <= i < servers.len() ==> valid_server_id((#[trigger] servers[i]).id)
    &&& forall|i: int, j: int|
        0 <= i < j < servers.len() ==> {
            &&& (#[trigger] servers[i]).id != (#[trigger] servers[j]).id
            &&& servers[i].rocketchat_url != servers[j].rocketchat_url
            &&& servers[i].rocketchat_token is Some && servers[j].rocketchat_token is Some
                ==> servers[i].rocketchat_token != servers[j].rocketchat_token
        }
}

/// The server of the given id, if the table holds one.
pub open spec fn server_by_id(servers: Seq<RocketchatServerView>, id: Seq<char>) -> Option<
    RocketchatServerView,
> {
    find_first(servers, |s: RocketchatServerView| s.id == id)
}

/// The server of the given address, if the table holds one.
pub open spec fn server_by_url(servers: Seq<RocketchatServerView>, url: Seq<char>) -> Option<
    RocketchatServerView,
> {
    find_first(servers, |s: RocketchatServerView| s.rocketchat_url == url)
}

/// The server of the given token, if the table holds one.
pub open spec fn server_by_token(servers: Seq<RocketchatServerView>, token: Seq<char>) -> Option<
    RocketchatServerView,
> {
    find_first(servers, |s: RocketchatServerView| s.rocketchat_token == Some(token))
}

/// The servers that have a token, in the order of the table.
pub open spec fn connected_servers(servers: Seq<RocketchatServerView>) -> Seq<
    RocketchatServerView,
> {
    servers.filter(|s: RocketchatServerView| s.rocketchat_token is Some)
}

/// Whether the table holds a server of the address of `new` that stands in the way of
/// `new`: one that has a token, or any one where `new` has none.
pub open spec fn url_taken(servers: Seq<RocketchatServerView>, new: RocketchatServerView) -> bool {
    server_by_url(servers, new.rocketchat_url) matches Some(known) && (known.rocketchat_token
        is Some || new.rocketchat_token is None)
}

/// Why the table does not take `new`, if it does not: the kinds are, in this order, an id of
/// the wrong shape, an id that is taken, an address that is taken, a token that is taken.
pub open spec fn insert_refusal(servers: Seq<RocketchatServerView>, new: RocketchatServerView) -> Option<
    ErrorView,
> {
    if !valid_server_id(new.id) {
        Some(silent(ErrorKindView::ConnectWithInvalidRocketchatServerId(new.id)))
    } else if server_by_id(servers, new.id) is Some {
        Some(silent(ErrorKindView::RocketchatServerIdAlreadyInUse(new.id)))
    } else if url_taken(servers, new) {
        Some(silent(ErrorKindView::RocketchatServerAlreadyConnected(new.rocketchat_url)))
    } else if new.rocketchat_token is Some && server_by_token(servers, new.rocketchat_token->0)
        is Some {
        Some(silent(ErrorKindView::RocketchatTokenAlreadyInUse(new.rocketchat_token->0)))
    } else {
        None
    }
}

/// The table with `new` in it: in the place of the server of the same address, if there is
/// one, else at the end.
///
/// A server that gives its place is one without a token, and it leaves the table with its
/// id: the new server has the id that it was given. The table of the users on servers is
/// another table and is not touched. The records of the users of the server that left stay
/// there under the id that it had, and belong to no server any more; none of them becomes a
/// record on the new server, whose users connect to it as to any new server.
pub open spec fn inserted(servers: Seq<RocketchatServerView>, new: RocketchatServerView) -> Seq<
    RocketchatServerView,
> {
    let at = first_match(servers, |s: RocketchatServerView| s.rocketchat_url == new.rocketchat_url);
    if at < servers.len() {
        servers.update(at, new)
    } else {
        servers.push(new)
    }
}

/// A table that is well formed is still so with a server in it that it does not refuse.
pub proof fn lemma_inserted_well_formed(
    servers: Seq<RocketchatServerView>,
    new: RocketchatServerView,
)
    requires
        servers_well_formed(servers),
        insert_refusal(servers, new) is None,
    ensures
        servers_well_formed(inserted(servers, new)),
{
    let by_id = |s: RocketchatServerView| s.id == new.id;
    let by_url = |s: RocketchatServerView| s.rocketchat_url == new.rocketchat_url;
    lemma_first_match_is_first(servers, by_id, 0);
    lemma_first_match_is_first(servers, by_url, 0);
    let after = inserted(servers, new);
    let at = first_match(servers, by_url);
    if new.rocketchat_token is Some {
        let token = new.rocketchat_token->0;
        let by_token = |s: RocketchatServerView| s.rocketchat_token == Some(token);
        lemma_first_match_is_first(servers, by_token, 0);
    }
    assert forall|i: int| 0 <= i < after.len() implies valid_server_id((#[trigger] after[i]).id) by {
        if i < servers.len() && i != at {
            assert(after[i] == servers[i]);
        }
    }
    assert forall|i: int, j: int| 0 <= i < j < after.len() implies {
        &&& (#[trigger] after[i]).id != (#[trigger] after[j]).id
        &&& after[i].rocketchat_url != after[j].rocketchat_url
        &&& after[i].rocketchat_token is Some && after[j].rocketchat_token is Some
            ==> after[i].rocketchat_token != after[j].rocketchat_token
    } by {
        let new_at = if at < servers.len() {
            at
        } else {
            servers.len() as int
        };
        if i != new_at && j != new_at {
            assert(after[j] == servers[j]);
        } else {
            let other = if i == new_at {
                j
            } else {
                i
            };
            if at < servers.len() {
                assert(servers[other].rocketchat_url != servers[at].rocketchat_url);
            } else {
                assert(!by_url(servers[other]));
            }
        }
    }
}

/// What becomes of the server that gives its place: a server without a token that had the
/// address of `new` is in the table no more, under either id, and every other server is
/// there as before.
pub proof fn lemma_replaced_server_leaves(servers: Seq<RocketchatServerView>, new: RocketchatServerView)
    requires
        servers_well_formed(servers),
        insert_refusal(servers, new) is None,
        server_by_url(servers, new.rocketchat_url) is Some,
    ensures
        server_by_url(servers, new.rocketchat_url)->0.rocketchat_token is None,
        inserted(servers, new).len() == servers.len(),
        !inserted(servers, new).contains(server_by_url(servers, new.rocketchat_url)->0),
        forall|i: int|
            0 <= i < servers.len() && servers[i].rocketchat_url != new.rocketchat_url ==> inserted(
                servers,
                new,
            )[i] == #[trigger] servers[i],
{
    let by_url = |s: RocketchatServerView| s.rocketchat_url == new.rocketchat_url;
    let by_id = |s: RocketchatServerView| s.id == new.id;
    lemma_first_match_is_first(servers, by_url, 0);
    lemma_first_match_is_first(servers, by_id, 0);
    let at = first_match(servers, by_url);
    let old_server = servers[at];
    let after = inserted(servers, new);
    assert forall|i: int| 0 <= i < after.len() implies after[i] != old_server by {
        if i != at {
            assert(after[i] == servers[i]);
            assert(servers[i].rocketchat_url != servers[at].rocketchat_url);
        } else {
            assert(!by_id(servers[at]));
        }
    }
}

/// A server that was put into the table is found by its address.
pub proof fn lemma_inserted_is_found(servers: Seq<RocketchatServerView>, new: RocketchatServerView)
    ensures
        server_by_url(inserted(servers, new), new.rocketchat_url) == Some(new),
{
    let by_url = |s: RocketchatServerView| s.rocketchat_url == new.rocketchat_url;
    lemma_first_match_is_first(servers, by_url, 0);
    let at = first_match(servers, by_url);
    let after = inserted(servers, new);
    assert forall|j: int| 0 <= j < at implies !by_url(#[trigger] after[j]) by {
        assert(after[j] == servers[j]);
    }
    lemma_first_match(after, by_url, at);
}

/// A server that has a token is never taken out of the table: whatever is put into the
/// table, the server keeps its place.
pub proof fn lemma_connected_servers_stay(
    servers: Seq<RocketchatServerView>,
    new: RocketchatServerView,
    i: int,
)
    requires
        insert_refusal(servers, new) is None,
        0 <= i < servers.len(),
        servers[i].rocketchat_token is Some,
    ensures
        i < inserted(servers, new).len(),
        inserted(servers, new)[i] == servers[i],
{
    let by_url = |s: RocketchatServerView| s.rocketchat_url == new.rocketchat_url;
    lemma_first_match_is_first(servers, by_url, 0);
}

/// No two servers of a store that is well formed have the same token.
pub proof fn lemma_tokens_are_unique(store: StoreView, i: int, j: int)
    requires
        crate::db::store::well_formed(store),
        0 <= i < store.rocketchat_servers.len(),
        0 <= j < store.rocketchat_servers.len(),
        i != j,
        store.rocketchat_servers[i].rocketchat_token is Some,
        store.rocketchat_servers[j].rocketchat_token is Some,
    ensures
        store.rocketchat_servers[i].rocketchat_token != store.rocketchat_servers[j].rocketchat_token,
{
    if i < j {
        assert(store.rocketchat_servers[i].id != store.rocketchat_servers[j].id);
    } else {
        assert(store.rocketchat_servers[j].id != store.rocketchat_servers[i].id);
    }
}

/// Decides whether `c` may occur in the id of a server.
pub fn server_id_char_allowed(c: char) -> (ok: bool)
    ensures
        ok == is_server_id_char(c),
{
    ('0' <= c && c <= '9') || ('a' <= c && c <= 'z') || c == '_'
}

/// The index of the first server that meets `pred`, where `matches` decides `pred`.
fn position_by_id(servers: &Vec<RocketchatServer>, id: &String) -> (at: usize)
    ensures
        at == first_match(servers.deep_view(), |s: RocketchatServerView| s.id == id@),
        at <= servers.len(),
{
    let ghost pred = |s: RocketchatServerView| s.id == id@;
    let mut i: usize = 0;
    while i < servers.len()
        invariant
            i <= servers.len(),
            pred == |s: RocketchatServerView| s.id == id@,
            forall|j: int| 0 <= j < i ==> !pred(#[trigger] servers.deep_view()[j]),
        decreases servers.len() - i,
    {
        if servers[i].id == *id {
            proof {
                lemma_first_match(servers.deep_view(), pred, i as int);
            }
            return i;
        }
        i = i + 1;
    }
    proof {
        lemma_first_match(servers.deep_view(), pred, i as int);
    }
    i
}

/// The index of the first server of the given address; the number of servers where there
/// is none.
fn position_by_url(servers: &Vec<RocketchatServer>, url: &String) -> (at: usize)
    ensures
        at == first_match(servers.deep_view(), |s: RocketchatServerView| s.rocketchat_url == url@),
        at <= servers.len(),
{
    let ghost pred = |s: RocketchatServerView| s.rocketchat_url == url@;
    let mut i: usize = 0;
    while i < servers.len()
        invariant
            i <= servers.len(),
            pred == |s: RocketchatServerView| s.rocketchat_url == url@,
            forall|j: int| 0 <= j < i ==> !pred(#[trigger] servers.deep_view()[j]),
        decreases servers.len() - i,
    {
        if servers[i].rocketchat_url == *url {
            proof {
                lemma_first_match(servers.deep_view(), pred, i as int);
            }
            return i;
        }
        i = i + 1;
    }
    proof {
        lemma_first_match(servers.deep_view(), pred, i as int);
    }
    i
}

/// The index of the first server of the given token; the number of servers where there is
/// none.
fn position_by_token(servers: &Vec<RocketchatServer>, token: &String) -> (at: usize)
    ensures
        at == first_match(
            servers.deep_view(),
            |s: RocketchatServerView| s.rocketchat_token == Some(token@),
        ),
        at <= servers.len(),
{
    let ghost pred = |s: RocketchatServerView| s.rocketchat_token == Some(token@);
    let mut i: usize = 0;
    while i < servers.len()
        invariant
            i <= servers.len(),
            pred == |s: RocketchatServerView| s.rocketchat_token == Some(token@),
            forall|j: int| 0 <= j < i ==> !pred(#[trigger] servers.deep_view()[j]),
        decreases servers.len() - i,
    {
        let same = match &servers[i].rocketchat_token {
            Some(t) => *t == *token,
            None => false,
        };
        if same {
            proof {
                lemma_first_match(servers.deep_view(), pred, i as int);
            }
            return i;
        }
        i = i + 1;
    }
    proof {
        lemma_first_match(servers.deep_view(), pred, i as int);
    }
    i
}

impl RocketchatServer {
    /// Decides whether `id` can be the id of a server.
    pub fn is_valid_id(id: &str) -> (ok: bool)
        ensures
            ok == valid_server_id(id@),
    {
        let cs = chars_of(id);
        if cs.len() == 0 || cs.len() > MAX_ROCKETCHAT_SERVER_ID_LENGTH {
            return false;
        }
        let mut i: usize = 0;
        while i < cs.len()
            invariant
                i <= cs.len(),
                cs@ == id@,
                forall|j: int| 0 <= j < i ==> is_server_id_char(#[trigger] id@[j]),
            decreases cs.len() - i,
        {
            if !server_id_char_allowed(cs[i]) {
                return false;
            }
            i = i + 1;
        }
        true
    }

    /// The server of the given id, if the store holds one.
    pub fn find_by_id(store: &Store, id: &str) -> (found: Option<RocketchatServer>)
        ensures
            found.deep_view() == server_by_id(store.deep_view().rocketchat_servers, id@),
    {
        let id = text(id);
        let at = position_by_id(&store.rocketchat_servers, &id);
        if at < store.rocketchat_servers.len() {
            Some(store.rocketchat_servers[at].clone())
        } else {
            None
        }
    }

    /// The server of the given address, if the store holds one.
    pub fn find_by_url(store: &Store, url: &str) -> (found: Option<RocketchatServer>)
        ensures
            found.deep_view() == server_by_url(store.deep_view().rocketchat_servers, url@),
    {
        let url = text(url);
        let at = position_by_url(&store.rocketchat_servers, &url);
        if at < store.rocketchat_servers.len() {
            Some(store.rocketchat_servers[at].clone())
        } else {
            None
        }
    }

    /// The server of the given token, if the store holds one.
    pub fn find_by_token(store: &Store, token: &str) -> (found: Option<RocketchatServer>)
        ensures
            found.deep_view() == server_by_token(store.deep_view().rocketchat_servers, token@),
    {
        let token = text(token);
        let at = position_by_token(&store.rocketchat_servers, &token);
        if at < store.rocketchat_servers.len() {
            Some(store.rocketchat_servers[at].clone())
        } else {
            None
        }
    }

    /// The servers that have a token, in the order of the store.
    pub fn find_connected_servers(store: &Store) -> (found: Vec<RocketchatServer>)
        ensures
            found.deep_view() == connected_servers(store.deep_view().rocketchat_servers),
    {
        let ghost all = store.deep_view().rocketchat_servers;
        let ghost pred = |s: RocketchatServerView| s.rocketchat_token is Some;
        let mut found: Vec<RocketchatServer> = Vec::new();
        let mut i: usize = 0;
        proof {
            reveal(Seq::filter);
        }
        while i < store.rocketchat_servers.len()
            invariant
                i <= store.rocketchat_servers.len(),
                all == store.deep_view().rocketchat_servers,
                pred == |s: RocketchatServerView| s.rocketchat_token is Some,
                found.deep_view() == all.take(i as int).filter(pred),
            decreases store.rocketchat_servers.len() - i,
        {
            proof {
                reveal(Seq::filter);
                assert(all.take(i + 1).drop_last() =~= all.take(i as int));
            }
            if store.rocketchat_servers[i].rocketchat_token.is_some() {
                found.push(store.rocketchat_servers[i].clone());
            }
            i = i + 1;
        }
        assert(all.take(i as int) =~= all);
        found
    }

    /// Puts `new` into the store, or says why the store does not take it. A server without
    /// a token gives its place to a server of the same address that has one. Only the table
    /// of the servers changes: the records of users, those on the server that gave its place
    /// among them, stay as they are.
    pub fn insert(store: &mut Store, new: RocketchatServer) -> (result: Result<
        RocketchatServer,
        Error,
    >)
        requires
            old(store).wf(),
        ensures
            final(store).wf(),
            match result {
                Ok(server) => {
                    &&& insert_refusal(old(store).deep_view().rocketchat_servers, new.deep_view())
                        is None
                    &&& server.deep_view() == new.deep_view()
                    &&& final(store).deep_view() == (StoreView {
                        rocketchat_servers: inserted(
                            old(store).deep_view().rocketchat_servers,
                            new.deep_view(),
                        ),
                        ..old(store).deep_view()
                    })
                    &&& final(store).deep_view().users == old(store).deep_view().users
                    &&& final(store).deep_view().users_on_rocketchat_servers == old(
                        store,
                    ).deep_view().users_on_rocketchat_servers
                },
                Err(e) => {
                    &&& insert_refusal(old(store).deep_view().rocketchat_servers, new.deep_view())
                        == Some(e.deep_view())
                    &&& final(store).deep_view() == old(store).deep_view()
                },
            },
    {
        let ghost servers = store.deep_view().rocketchat_servers;
        if !RocketchatServer::is_valid_id(new.id.as_str()) {
            return Err(
                Error { kind: ErrorKind::ConnectWithInvalidRocketchatServerId(new.id), user_message: None },
            );
        }
        if position_by_id(&store.rocketchat_servers, &new.id) < store.rocketchat_servers.len() {
            return Err(
                Error { kind: ErrorKind::RocketchatServerIdAlreadyInUse(new.id), user_message: None },
            );
        }
        let at = position_by_url(&store.rocketchat_servers, &new.rocketchat_url);
        if at < store.rocketchat_servers.len() && (store.rocketchat_servers[at].rocketchat_token.is_some()
            || new.rocketchat_token.is_none()) {
            return Err(
                Error {
                    kind: ErrorKind::RocketchatServerAlreadyConnected(new.rocketchat_url),
                    user_message: None,
                },
            );
        }
        match &new.rocketchat_token {
            Some(token) => {
                if position_by_token(&store.rocketchat_servers, token)
                    < store.rocketchat_servers.len() {
                    return Err(
                        Error {
                            kind: ErrorKind::RocketchatTokenAlreadyInUse(token.clone()),
                            user_message: None,
                        },
                    );
                }
            },
            None => {},
        }
        proof {
            lemma_inserted_well_formed(servers, new.deep_view());
        }
        let server = new.clone();
        if at < store.rocketchat_servers.len() {
            store.rocketchat_servers.set(at, new);
        } else {
            store.rocketchat_servers.push(new);
        }
        assert(store.deep_view().rocketchat_servers =~= inserted(servers, server.deep_view()));
        Ok(server)
    }
}

} // verus!
