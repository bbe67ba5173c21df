//! What the bridge does with the messages that users send on Matrix.

use vstd::prelude::*;
use crate::api::exchange::{rest, Halt, HaltView, ReplyView, RequestView, Transcript};
use crate::api::matrix;
use crate::api::matrix::MatrixApi;
use crate::api::rocketchat;
use crate::api::rocketchat::RocketchatApi;
use crate::config::{Config, ConfigView};
use crate::db::room;
use crate::db::room::{
    bridged_channel,
    channel_of_alias,
    lemma_alias_names_its_channel,
    names_channel_of,
    room_alias_id,
    Room,
};
use crate::db::store::{Store, StoreView};
use crate::db::user::{message_sent, User};
use crate::db::user_on_rocketchat_server::{
    logged_in,
    user_on_server,
    UserOnRocketchatServer,
    UserOnRocketchatServerView,
};
use crate::handlers::events::command_handler;
use crate::handlers::events::command_handler::{api_of, CommandHandler};
use crate::handlers::run::{ended, halted, ran, undone, with_store, Run};
use crate::models::{MessageContent, MessageContentView, MessageEvent, MessageEventView};
use crate::seqs::lemma_first_match;

verus! {

/// The store after the user of the given id has sent a message at `now`.
pub open spec fn store_after_message(store: StoreView, matrix_user_id: Seq<char>, now: i64) -> StoreView {
    StoreView { users: message_sent(store.users, matrix_user_id, now), ..store }
}

/// What [`MessageHandler::forward`] gives, over the store `store` and the answers
/// `pending`: the text of a user who is logged in on the server of the room's channel is
/// posted into that channel, and the store records when. The channel of a room is the one
/// that the room's canonical alias names: that of a bridged channel as that of a room for
/// direct messages. A message that is no text, a room whose canonical alias names no
/// channel, a sender who is virtual or not logged in: these are passed over. A run that
/// stops before its end leaves the store as it was.
pub open spec fn forward(
    store: StoreView,
    pending: Seq<ReplyView>,
    config: ConfigView,
    event: MessageEventView,
    now: i64,
) -> Run<()> {
    undone(store, match event.content {
        MessageContentView::Other => ended((), store, pending),
        MessageContentView::Text(body) => {
            let asked = matrix::get_room_canonical_alias(pending, event.room_id);
            match asked.result {
                Err(halt) => halted(halt, store, asked.pending),
                Ok(None) => ended((), store, asked.pending),
                Ok(Some(alias)) => match bridged_channel(config, store, alias) {
                    None => ended((), store, asked.pending),
                    Some((server, channel_id)) => match user_on_server(
                        store.users_on_rocketchat_servers,
                        event.user_id,
                        server.id,
                    ) {
                        None => ended((), store, asked.pending),
                        Some(sender) => if sender.is_virtual_user || !logged_in(sender) {
                            ended((), store, asked.pending)
                        } else {
                            let stored = store_after_message(store, event.user_id, now);
                            let probed = rocketchat::connected(asked.pending, server.rocketchat_url);
                            match probed.result {
                                Err(halt) => halted(halt, stored, probed.pending),
                                Ok(_) => with_store(
                                    rocketchat::post_chat_message(
                                        probed.pending,
                                        api_of(server, sender),
                                        channel_id,
                                        body,
                                    ),
                                    stored,
                                ),
                            }
                        },
                    },
                },
            }
        },
    })
}

/// What [`MessageHandler::process`] gives, over the store `store` and the answers
/// `pending`: a message of a room in which the bot takes commands is taken as a command,
/// any other is forwarded.
pub open spec fn process(
    store: StoreView,
    pending: Seq<ReplyView>,
    config: ConfigView,
    event: MessageEventView,
    now: i64,
) -> Run<()> {
    let admin = room::is_admin_room(pending, config, event.room_id);
    match admin.result {
        Err(halt) => halted(halt, store, admin.pending),
        Ok(true) => command_handler::process(store, admin.pending, config, event, event.room_id),
        Ok(false) => forward(store, admin.pending, config, event, now),
    }
}

/// How a message of a room finds its channel, be the room that of a bridged channel or of
/// a conversation between two users. The canonical alias of the room is the alias that was
/// made for the channel `channel_id` of the server at index `at` of the store, no server
/// before it is named by that alias, and the one who sends the text is logged in on the
/// server and not virtual. Then, the server having answered the probe, the one call that
/// is asked for posts the text into that channel, in the name of the one who sends it; and
/// with the text posted the store holds when the user has sent it, and the run has ended.
pub proof fn lemma_message_finds_its_channel(
    store: StoreView,
    config: ConfigView,
    event: MessageEventView,
    now: i64,
    at: int,
    channel_id: Seq<char>,
    sender: UserOnRocketchatServerView,
    body: Seq<char>,
)
    requires
        event.content == MessageContentView::Text(body),
        !config.sender_localpart.contains(':'),
        !channel_id.contains(':'),
        0 <= at < store.rocketchat_servers.len(),
        !store.rocketchat_servers[at].id.contains(':'),
        forall|j: int|
            0 <= j < at ==> channel_of_alias(
                config,
                (#[trigger] store.rocketchat_servers[j]).id,
                room_alias_id(config, store.rocketchat_servers[at].id, channel_id),
            ) is None,
        user_on_server(
            store.users_on_rocketchat_servers,
            event.user_id,
            store.rocketchat_servers[at].id,
        ) == Some(sender),
        !sender.is_virtual_user,
        logged_in(sender),
    ensures
        bridged_channel(
            config,
            store,
            room_alias_id(config, store.rocketchat_servers[at].id, channel_id),
        ) == Some((store.rocketchat_servers[at], channel_id)),
        forward(
            store,
            seq![
                ReplyView::Text(room_alias_id(config, store.rocketchat_servers[at].id, channel_id)),
                ReplyView::Done,
            ],
            config,
            event,
            now,
        ).result == Err::<(), HaltView>(
            HaltView::Ask(
                RequestView::PostChatMessage {
                    rocketchat_url: store.rocketchat_servers[at].rocketchat_url,
                    user_id: sender.rocketchat_user_id->0,
                    auth_token: sender.rocketchat_auth_token->0,
                    channel_id,
                    text: body,
                },
            ),
        ),
        forward(
            store,
            seq![
                ReplyView::Text(room_alias_id(config, store.rocketchat_servers[at].id, channel_id)),
                ReplyView::Done,
                ReplyView::Done,
            ],
            config,
            event,
            now,
        ) == ended((), store_after_message(store, event.user_id, now), Seq::empty()),
{
    let server = store.rocketchat_servers[at];
    let alias = room_alias_id(config, server.id, channel_id);
    lemma_alias_names_its_channel(config, server.id, channel_id);
    lemma_first_match(store.rocketchat_servers, names_channel_of(config, alias), at);
    let two = seq![ReplyView::Text(alias), ReplyView::Done];
    let three = seq![ReplyView::Text(alias), ReplyView::Done, ReplyView::Done];
    assert(rest(two) =~= seq![ReplyView::Done]);
    assert(rest(rest(two)) =~= Seq::empty());
    assert(rest(three) =~= seq![ReplyView::Done, ReplyView::Done]);
    assert(rest(rest(three)) =~= seq![ReplyView::Done]);
    assert(rest(rest(rest(three))) =~= Seq::empty());
}

/// The handling of a message is a transaction. One that stops before its end, for want of
/// an answer or with an error, leaves the store as it was.
pub proof fn lemma_failed_message_writes_nothing(
    store: StoreView,
    pending: Seq<ReplyView>,
    config: ConfigView,
    event: MessageEventView,
    now: i64,
)
    ensures
        process(store, pending, config, event, now).result is Err ==> process(
            store,
            pending,
            config,
            event,
            now,
        ).store == store,
{
    let admin = room::is_admin_room(pending, config, event.room_id);
    command_handler::lemma_failed_command_writes_nothing(
        store,
        admin.pending,
        config,
        event,
        event.room_id,
    );
}

/// Takes the messages that users send on Matrix.
#[derive(Debug, PartialEq, Eq)]
pub struct MessageHandler<'a> {
    /// The configuration of the application service.
    pub config: &'a Config,
}

impl<'a> MessageHandler<'a> {
    /// A handler of messages.
    pub fn new(config: &'a Config) -> (handler: MessageHandler<'a>)
        ensures
            handler.config == config,
    {
        MessageHandler { config }
    }

    /// Handles a message that was sent at `now`: in a room in which the bot takes commands
    /// it is a command, in any other it is forwarded.
    pub fn process(&self, store: &mut Store, calls: &mut Transcript, event: &MessageEvent, now: i64) -> (result:
        Result<(), Halt>)
        requires
            old(store).wf(),
        ensures
            final(store).wf(),
            ran(result, final(store).deep_view(), final(calls).pending()) == process(
                old(store).deep_view(),
                old(calls).pending(),
                self.config.deep_view(),
                event.deep_view(),
                now,
            ),
            result is Err ==> final(store).deep_view() == old(store).deep_view(),
    {
        match Room::is_admin_room(calls, self.config, event.room_id.as_str()) {
            Ok(true) => CommandHandler::new(self.config).process(
                store,
                calls,
                event,
                event.room_id.as_str(),
            ),
            Ok(false) => self.forward(store, calls, event, now),
            Err(halt) => Err(halt),
        }
    }

    /// Forwards a message that was sent at `now` to the channel of its room.
    pub fn forward(&self, store: &mut Store, calls: &mut Transcript, event: &MessageEvent, now: i64) -> (result:
        Result<(), Halt>)
        requires
            old(store).wf(),
        ensures
            final(store).wf(),
            ran(result, final(store).deep_view(), final(calls).pending()) == forward(
                old(store).deep_view(),
                old(calls).pending(),
                self.config.deep_view(),
                event.deep_view(),
                now,
            ),
            result is Err ==> final(store).deep_view() == old(store).deep_view(),
    {
        let body = match &event.content {
            MessageContent::Text(body) => body,
            MessageContent::Other => return Ok(()),
        };
        let alias = match MatrixApi::get_room_canonical_alias(calls, event.room_id.as_str()) {
            Ok(Some(alias)) => alias,
            Ok(None) => return Ok(()),
            Err(halt) => return Err(halt),
        };
        let (server, channel_id) = match Room::bridged_channel(self.config, store, alias.as_str()) {
            Some(found) => found,
            None => return Ok(()),
        };
        let sender = match UserOnRocketchatServer::find(
            store,
            event.user_id.as_str(),
            server.id.as_str(),
        ) {
            Ok(sender) => sender,
            Err(_) => return Ok(()),
        };
        if sender.is_virtual_user || !sender.is_logged_in() {
            return Ok(());
        }
        let api = match RocketchatApi::new(calls, server.rocketchat_url.clone()) {
            Ok(api) => api,
            Err(halt) => return Err(halt),
        };
        let api = api.with_credentials(
            CommandHandler::text_or_empty(&sender.rocketchat_user_id),
            CommandHandler::text_or_empty(&sender.rocketchat_auth_token),
        );
        match api.post_chat_message(calls, channel_id.as_str(), body.as_str()) {
            Ok(()) => {},
            Err(halt) => return Err(halt),
        }
        // the moment is kept only now that the message is posted
        User::record_message_sent(store, event.user_id.as_str(), now);
        Ok(())
    }
}

} // verus!
