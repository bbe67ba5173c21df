//! Virtual users: the Matrix users that the bridge makes to stand for users of Rocket.Chat
//! servers.

use vstd::prelude::*;
use crate::api::exchange::{
    give,
    reached,
    rest,
    stop,
    Halt,
    HaltView,
    ReplyView,
    RequestView,
    Step,
    Transcript,
};
use crate::api::matrix;
use crate::api::matrix::MatrixApi;
use crate::config::{Config, ConfigView};
use crate::db::room::contains_name;
use crate::db::store::{Store, StoreView};
use crate::db::user_on_rocketchat_server::{
    lemma_upsert_adds_at_most_one,
    lemma_upsert_idempotent,
    upserted,
    user_on_server,
    UserOnRocketchatServer,
    UserOnRocketchatServerView,
};
use crate::handlers::run::{ended, halted, ran, undone, Run};
use crate::seqs::lemma_first_match_is_first;
use crate::text::text;

verus! {

/// The local part of the id of the virtual user that stands for a user of a Rocket.Chat
/// server: the sender's local part, the user's id on the server and the id of the server,
/// with an underscore between each two.
pub open spec fn virtual_user_localpart(
    config: ConfigView,
    rocketchat_server_id: Seq<char>,
    rocketchat_user_id: Seq<char>,
) -> Seq<char> {
    config.sender_localpart + seq!['_'] + rocketchat_user_id + seq!['_'] + rocketchat_server_id
}

/// The id of the virtual user that stands for a user of a Rocket.Chat server: `@`, the
/// local part, a colon and the homeserver's domain.
pub open spec fn virtual_user_id(
    config: ConfigView,
    rocketchat_server_id: Seq<char>,
    rocketchat_user_id: Seq<char>,
) -> Seq<char> {
    seq!['@'] + virtual_user_localpart(config, rocketchat_server_id, rocketchat_user_id) + seq![':']
        + config.hs_domain
}

/// The record of a virtual user who was just registered.
pub open spec fn new_virtual_user(
    config: ConfigView,
    rocketchat_server_id: Seq<char>,
    rocketchat_user_id: Seq<char>,
    rocketchat_username: Seq<char>,
) -> UserOnRocketchatServerView {
    UserOnRocketchatServerView {
        is_virtual_user: true,
        matrix_user_id: virtual_user_id(config, rocketchat_server_id, rocketchat_user_id),
        rocketchat_server_id,
        rocketchat_user_id: Some(rocketchat_user_id),
        rocketchat_auth_token: None,
        rocketchat_username: Some(rocketchat_username),
    }
}

/// The store with `row` written into the table of users on servers.
pub open spec fn store_with_user(store: StoreView, row: UserOnRocketchatServerView) -> StoreView {
    StoreView {
        users_on_rocketchat_servers: upserted(store.users_on_rocketchat_servers, row),
        ..store
    }
}

/// What becomes of a virtual user whose record the store holds, once the homeserver has
/// answered the call that sets the user's display name: where the call succeeded the
/// record takes the new name; where it failed nothing changes, and the run goes on.
pub open spec fn renamed(
    store: StoreView,
    known: UserOnRocketchatServerView,
    rocketchat_username: Seq<char>,
    answer: Step<()>,
) -> Run<UserOnRocketchatServerView> {
    let pending = answer.pending;
    match answer.result {
        Err(HaltView::Ask(request)) => halted(HaltView::Ask(request), store, pending),
        Err(HaltView::Fail(_)) => ended(known, store, pending),
        Ok(_) => {
            let row = UserOnRocketchatServerView {
                rocketchat_username: Some(rocketchat_username),
                ..known
            };
            ended(row, store_with_user(store, row), pending)
        },
    }
}

/// What becomes of a virtual user who was just registered, once the homeserver has
/// answered the call that sets the user's display name: whether the call succeeded or
/// failed, the run goes on.
pub open spec fn named(
    store: StoreView,
    row: UserOnRocketchatServerView,
    answer: Step<()>,
) -> Run<UserOnRocketchatServerView> {
    match answer.result {
        Err(HaltView::Ask(request)) => halted(HaltView::Ask(request), store, answer.pending),
        _ => ended(row, store, answer.pending),
    }
}

/// What [`VirtualUserHandler::find_or_register`] gives, over the store `store` and the
/// answers `pending`. A new user is registered, and the record of the user is written; a
/// run that stops before its end leaves the store as it was. The id of a virtual user
/// follows from the ids of the server and of the user, so a user whom the homeserver
/// knows already, from a run that went no further, counts as registered.
pub open spec fn find_or_register(
    store: StoreView,
    pending: Seq<ReplyView>,
    config: ConfigView,
    rocketchat_server_id: Seq<char>,
    rocketchat_user_id: Seq<char>,
    rocketchat_username: Seq<char>,
) -> Run<UserOnRocketchatServerView> {
    let id = virtual_user_id(config, rocketchat_server_id, rocketchat_user_id);
    undone(store, match user_on_server(store.users_on_rocketchat_servers, id, rocketchat_server_id) {
        None => {
            let row = new_virtual_user(
                config,
                rocketchat_server_id,
                rocketchat_user_id,
                rocketchat_username,
            );
            let stored = store_with_user(store, row);
            let registered = matrix::register(
                pending,
                virtual_user_localpart(config, rocketchat_server_id, rocketchat_user_id),
            );
            match registered.result {
                Err(halt) => halted(halt, stored, registered.pending),
                Ok(_) => named(
                    stored,
                    row,
                    matrix::set_display_name(registered.pending, id, rocketchat_username),
                ),
            }
        },
        Some(known) => if known.rocketchat_username == Some(rocketchat_username) {
            ended(known, store, pending)
        } else {
            renamed(
                store,
                known,
                rocketchat_username,
                matrix::set_display_name(pending, id, rocketchat_username),
            )
        },
    })
}

/// What [`VirtualUserHandler::add_to_room`] gives over the answers `pending`: a user who
/// is in the room already is left alone; another is invited by the bot and joins.
pub open spec fn add_to_room(
    pending: Seq<ReplyView>,
    matrix_user_id: Seq<char>,
    inviter_id: Seq<char>,
    room_id: Seq<char>,
) -> Step<()> {
    let asked = matrix::get_room_members(pending, room_id);
    match asked.result {
        Err(halt) => stop(halt, asked.pending),
        Ok(members) => if members.contains(matrix_user_id) {
            give((), asked.pending)
        } else {
            let invited = matrix::invite(asked.pending, room_id, matrix_user_id, inviter_id);
            match invited.result {
                Err(halt) => stop(halt, invited.pending),
                Ok(_) => matrix::join(invited.pending, room_id, matrix_user_id),
            }
        },
    }
}

/// The renaming of a virtual user. The store holds the record `known` of the virtual user
/// of a user of a Rocket.Chat server, under another name than the user has now. Then the
/// one call that is asked for sets the new name as display name. Once that call has
/// succeeded, the record holds the new name and is otherwise as it was, no record was
/// added, and the user is not registered again: the answers `more` that follow are left
/// unread. Asked again, the bridge then finds the record and makes no call at all.
pub proof fn lemma_renamed_once(
    store: StoreView,
    config: ConfigView,
    rocketchat_server_id: Seq<char>,
    rocketchat_user_id: Seq<char>,
    rocketchat_username: Seq<char>,
    known: UserOnRocketchatServerView,
    more: Seq<ReplyView>,
)
    requires
        user_on_server(
            store.users_on_rocketchat_servers,
            virtual_user_id(config, rocketchat_server_id, rocketchat_user_id),
            rocketchat_server_id,
        ) == Some(known),
        known.rocketchat_username != Some(rocketchat_username),
    ensures
        find_or_register(
            store,
            Seq::empty(),
            config,
            rocketchat_server_id,
            rocketchat_user_id,
            rocketchat_username,
        ).result == Err::<UserOnRocketchatServerView, HaltView>(
            HaltView::Ask(
                RequestView::SetDisplayName {
                    user_id: virtual_user_id(config, rocketchat_server_id, rocketchat_user_id),
                    display_name: rocketchat_username,
                },
            ),
        ),
        ({
            let row = UserOnRocketchatServerView {
                rocketchat_username: Some(rocketchat_username),
                ..known
            };
            let after = find_or_register(
                store,
                seq![ReplyView::Done] + more,
                config,
                rocketchat_server_id,
                rocketchat_user_id,
                rocketchat_username,
            );
            &&& after == ended(row, store_with_user(store, row), more)
            &&& after.store.users_on_rocketchat_servers.len()
                == store.users_on_rocketchat_servers.len()
            &&& user_on_server(
                after.store.users_on_rocketchat_servers,
                virtual_user_id(config, rocketchat_server_id, rocketchat_user_id),
                rocketchat_server_id,
            ) == Some(row)
            &&& find_or_register(
                after.store,
                Seq::empty(),
                config,
                rocketchat_server_id,
                rocketchat_user_id,
                rocketchat_username,
            ) == ended(row, after.store, Seq::empty())
        }),
{
    let id = virtual_user_id(config, rocketchat_server_id, rocketchat_user_id);
    let rows = store.users_on_rocketchat_servers;
    lemma_first_match_is_first(
        rows,
        |r: UserOnRocketchatServerView|
            r.matrix_user_id == id && r.rocketchat_server_id == rocketchat_server_id,
        0,
    );
    let row = UserOnRocketchatServerView { rocketchat_username: Some(rocketchat_username), ..known };
    lemma_upsert_adds_at_most_one(rows, row);
    lemma_upsert_idempotent(rows, row);
    assert(rest(seq![ReplyView::Done] + more) =~= more);
}

/// That a display name cannot be set is no error. Whether the virtual user is new, and is
/// registered first, or is known under another name: where the homeserver refuses the
/// display name, the run ends with the user's record all the same. The new user's record
/// is kept; the known user's record keeps the name that it had.
pub proof fn lemma_display_name_failure_is_no_error(
    store: StoreView,
    config: ConfigView,
    rocketchat_server_id: Seq<char>,
    rocketchat_user_id: Seq<char>,
    rocketchat_username: Seq<char>,
    cause: Seq<char>,
)
    ensures
        match user_on_server(
            store.users_on_rocketchat_servers,
            virtual_user_id(config, rocketchat_server_id, rocketchat_user_id),
            rocketchat_server_id,
        ) {
            None => find_or_register(
                store,
                seq![ReplyView::Done, ReplyView::Failed(cause)],
                config,
                rocketchat_server_id,
                rocketchat_user_id,
                rocketchat_username,
            ) == ended(
                new_virtual_user(config, rocketchat_server_id, rocketchat_user_id, rocketchat_username),
                store_with_user(
                    store,
                    new_virtual_user(
                        config,
                        rocketchat_server_id,
                        rocketchat_user_id,
                        rocketchat_username,
                    ),
                ),
                Seq::empty(),
            ),
            Some(known) => known.rocketchat_username != Some(rocketchat_username)
                ==> find_or_register(
                store,
                seq![ReplyView::Failed(cause)],
                config,
                rocketchat_server_id,
                rocketchat_user_id,
                rocketchat_username,
            ) == ended(known, store, Seq::empty()),
        },
{
    let two = seq![ReplyView::Done, ReplyView::Failed(cause)];
    assert(rest(two) =~= seq![ReplyView::Failed(cause)]);
    assert(rest(rest(two)) =~= Seq::empty());
    assert(rest(seq![ReplyView::Failed(cause)]) =~= Seq::empty());
}

/// Makes and finds the virtual users.
#[derive(Debug, PartialEq, Eq)]
pub struct VirtualUserHandler<'a> {
    /// The configuration of the application service.
    pub config: &'a Config,
}

impl<'a> VirtualUserHandler<'a> {
    /// The local part of the id of the virtual user that stands for a user of a Rocket.Chat
    /// server.
    pub fn build_user_localpart(&self, rocketchat_server_id: &str, rocketchat_user_id: &str) -> (localpart:
        String)
        ensures
            localpart@ == virtual_user_localpart(
                self.config.deep_view(),
                rocketchat_server_id@,
                rocketchat_user_id@,
            ),
    {
        proof {
            reveal_strlit("_");
        }
        let mut localpart = self.config.sender_localpart.clone();
        localpart.append("_");
        localpart.append(rocketchat_user_id);
        localpart.append("_");
        localpart.append(rocketchat_server_id);
        localpart
    }

    /// The id of the virtual user that stands for a user of a Rocket.Chat server. It
    /// depends on the sender's local part, on the homeserver's domain and on the two ids,
    /// and on nothing else.
    pub fn build_user_id(&self, rocketchat_server_id: &str, rocketchat_user_id: &str) -> (id: String)
        ensures
            id@ == virtual_user_id(self.config.deep_view(), rocketchat_server_id@, rocketchat_user_id@),
    {
        proof {
            reveal_strlit("@");
            reveal_strlit(":");
        }
        let localpart = self.build_user_localpart(rocketchat_server_id, rocketchat_user_id);
        let mut id = text("@");
        id.append(localpart.as_str());
        id.append(":");
        id.append(self.config.hs_domain.as_str());
        id
    }

    /// The record of the virtual user that stands for a user of a Rocket.Chat server. A
    /// user who has none is registered with the homeserver and gets one; a user whose
    /// name has changed gets the new name as display name. That the display name cannot be
    /// set never ends the run.
    pub fn find_or_register(
        &self,
        store: &mut Store,
        calls: &mut Transcript,
        rocketchat_server_id: &str,
        rocketchat_user_id: &str,
        rocketchat_username: &str,
    ) -> (result: Result<UserOnRocketchatServer, Halt>)
        requires
            old(store).wf(),
        ensures
            final(store).wf(),
            ran(result, final(store).deep_view(), final(calls).pending()) == find_or_register(
                old(store).deep_view(),
                old(calls).pending(),
                self.config.deep_view(),
                rocketchat_server_id@,
                rocketchat_user_id@,
                rocketchat_username@,
            ),
            result is Err ==> final(store).deep_view() == old(store).deep_view(),
    {
        let id = self.build_user_id(rocketchat_server_id, rocketchat_user_id);
        match UserOnRocketchatServer::find(store, id.as_str(), rocketchat_server_id) {
            Err(_) => {
                let row = UserOnRocketchatServer {
                    is_virtual_user: true,
                    matrix_user_id: id.clone(),
                    rocketchat_server_id: text(rocketchat_server_id),
                    rocketchat_user_id: Some(text(rocketchat_user_id)),
                    rocketchat_auth_token: None,
                    rocketchat_username: Some(text(rocketchat_username)),
                };
                let localpart = self.build_user_localpart(rocketchat_server_id, rocketchat_user_id);
                match MatrixApi::register(calls, localpart.as_str()) {
                    Ok(()) => {},
                    Err(halt) => return Err(halt),
                }
                match MatrixApi::set_display_name(calls, id.as_str(), rocketchat_username) {
                    Err(Halt::Ask(request)) => return Err(Halt::Ask(request)),
                    _ => {},
                }
                // the record is kept only now that the run has come to its end
                Ok(UserOnRocketchatServer::upsert(store, &row))
            },
            Ok(known) => {
                let same = match &known.rocketchat_username {
                    Some(name) => *name == text(rocketchat_username),
                    None => false,
                };
                if same {
                    return Ok(known);
                }
                match MatrixApi::set_display_name(calls, id.as_str(), rocketchat_username) {
                    Err(Halt::Ask(request)) => Err(Halt::Ask(request)),
                    Err(Halt::Fail(_)) => Ok(known),
                    Ok(()) => {
                        let row = UserOnRocketchatServer {
                            is_virtual_user: known.is_virtual_user,
                            matrix_user_id: known.matrix_user_id,
                            rocketchat_server_id: known.rocketchat_server_id,
                            rocketchat_user_id: known.rocketchat_user_id,
                            rocketchat_auth_token: known.rocketchat_auth_token,
                            rocketchat_username: Some(text(rocketchat_username)),
                        };
                        Ok(UserOnRocketchatServer::upsert(store, &row))
                    },
                }
            },
        }
    }

    /// Brings a user into a room: the user is invited by `inviter_id` and joins. A user
    /// who is in the room already is left alone.
    pub fn add_to_room(&self, calls: &mut Transcript, matrix_user_id: &str, inviter_id: &str, room_id: &str) -> (result:
        Result<(), Halt>)
        ensures
            reached(result, final(calls).pending()) == add_to_room(
                old(calls).pending(),
                matrix_user_id@,
                inviter_id@,
                room_id@,
            ),
    {
        let members = match MatrixApi::get_room_members(calls, room_id) {
            Ok(members) => members,
            Err(halt) => return Err(halt),
        };
        if contains_name(&members, matrix_user_id) {
            return Ok(());
        }
        match MatrixApi::invite(calls, room_id, matrix_user_id, inviter_id) {
            Ok(()) => {},
            Err(halt) => return Err(halt),
        }
        MatrixApi::join(calls, room_id, matrix_user_id)
    }
}

} // verus!
