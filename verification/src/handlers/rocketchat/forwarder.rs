//! Forwarding the messages of Rocket.Chat servers into the rooms of their channels.

use vstd::prelude::*;
use crate::config::checked_bot_user_id;
use crate::api::exchange::{rest, Body, BodyView, Halt, HaltView, ReplyView, RequestView, Transcript};
use crate::api::matrix;
use crate::api::matrix::MatrixApi;
use crate::api::rocketchat::{Message, MessageView};
use crate::config::{bot_user_id, Config, ConfigView};
use crate::db::rocketchat_server::{server_by_token, RocketchatServer, RocketchatServerView};
use crate::db::room;
use crate::db::room::{Room};
use crate::db::store::{Store, StoreView};
use crate::db::user::{lemma_message_sent_is_recorded, user_by_id, User};
use crate::db::user_on_rocketchat_server::{
    logged_in,
    user_by_rocketchat_user_id,
    user_on_server,
    UserOnRocketchatServer,
};
use crate::handlers::events::message_handler;
use crate::handlers::rocketchat::virtual_user_handler::virtual_user_id;
use crate::identifiers::user_id_accepted;
use crate::models::MessageEventView;
use crate::handlers::rocketchat::virtual_user_handler;
use crate::handlers::rocketchat::virtual_user_handler::VirtualUserHandler;
use crate::handlers::rocketchat::direct_message;
use crate::handlers::run::{ended, failed, halted, ran, undone, with_store, Run};

verus! {

/// How long after a user has sent a message on Matrix the messages that a Rocket.Chat
/// server sends in the user's name are passed over, in seconds.
pub const LOOP_WINDOW: i64 = 5;

/// The status of a message that the bridge has taken.
pub const STATUS_OK: u16 = 200;

/// The status of a message without a token.
pub const STATUS_UNAUTHORIZED: u16 = 401;

/// The status of a message with a token that no server has.
pub const STATUS_FORBIDDEN: u16 = 403;

/// The status of a message that cannot be read.
pub const STATUS_UNPROCESSABLE_ENTITY: u16 = 422;

/// The status of a message whose forwarding failed.
pub const STATUS_INTERNAL_SERVER_ERROR: u16 = 500;

/// Whether a message that was sent at `last_message_sent` lies within the window at `now`.
pub open spec fn within_window(last_message_sent: i64, now: i64) -> bool {
    now - last_message_sent <= LOOP_WINDOW
}

/// Whether a message of the given user of a Rocket.Chat server is passed over at `now`: a
/// user who is not virtual has that id on the server, and has sent a message on Matrix
/// within the window.
pub open spec fn suppressed(
    store: StoreView,
    rocketchat_server_id: Seq<char>,
    rocketchat_user_id: Seq<char>,
    now: i64,
) -> bool {
    match user_by_rocketchat_user_id(
        store.users_on_rocketchat_servers,
        rocketchat_server_id,
        rocketchat_user_id,
        false,
    ) {
        None => false,
        Some(sender) => match user_by_id(store.users, sender.matrix_user_id) {
            None => false,
            Some(user) => within_window(user.last_message_sent, now),
        },
    }
}

/// Who sent a message, or why the message is turned away: a message that could not be
/// read, one without a token, one with a token that no server has.
pub open spec fn authenticated(store: StoreView, payload: Option<MessageView>) -> Result<
    RocketchatServerView,
    u16,
> {
    match payload {
        None => Err(STATUS_UNPROCESSABLE_ENTITY),
        Some(message) => match message.token {
            None => Err(STATUS_UNAUTHORIZED),
            Some(token) => match server_by_token(store.rocketchat_servers, token) {
                None => Err(STATUS_FORBIDDEN),
                Some(server) => Ok(server),
            },
        },
    }
}

/// What becomes of a message for the room of the given id, in the name of the virtual user
/// of its sender: the user is found or registered, brought into the room, and sends the
/// text.
pub open spec fn deliver(
    store: StoreView,
    pending: Seq<ReplyView>,
    config: ConfigView,
    server: RocketchatServerView,
    message: MessageView,
    room_id: Seq<char>,
    bot_id: Seq<char>,
) -> Run<()> {
    let found = virtual_user_handler::find_or_register(
        store,
        pending,
        config,
        server.id,
        message.user_id,
        message.user_name,
    );
    match found.result {
        Err(halt) => halted(halt, found.store, found.pending),
        Ok(sender) => {
            let added = virtual_user_handler::add_to_room(
                found.pending,
                sender.matrix_user_id,
                bot_id,
                room_id,
            );
            match added.result {
                Err(halt) => halted(halt, found.store, added.pending),
                Ok(_) => with_store(
                    matrix::send_text_message_event(
                        added.pending,
                        room_id,
                        sender.matrix_user_id,
                        BodyView::Plain(message.text),
                    ),
                    found.store,
                ),
            }
        },
    }
}

/// What becomes of a message that is not passed over, for the room of the given id: the
/// bot's id is checked, and the message is delivered. A delivery that stops before its end
/// leaves the store as it was.
pub open spec fn forwarded(
    store: StoreView,
    pending: Seq<ReplyView>,
    config: ConfigView,
    server: RocketchatServerView,
    message: MessageView,
    room_id: Seq<char>,
    bot_id: Seq<char>,
) -> Run<()> {
    undone(store, deliver(store, pending, config, server, message, room_id, bot_id))
}

/// What [`Forwarder::send`] gives, over the store `store` and the answers `pending`.
///
/// The room of a message is the one that has the alias of the message's channel, be the
/// channel one with a name or a conversation between two users. A message of a user who
/// has just sent a message on Matrix is passed over. So is a message of a channel with a
/// name that has no room. For a conversation that has no room, a room is made for the
/// user to whom the message goes; where the bridge knows no such user, the message is
/// passed over. A run that stops before its end leaves the store as it was.
pub open spec fn send(
    store: StoreView,
    pending: Seq<ReplyView>,
    config: ConfigView,
    server: RocketchatServerView,
    message: MessageView,
    now: i64,
) -> Run<()> {
    let resolved = room::matrix_id_from_rocketchat_channel_id(
        pending,
        config,
        server.id,
        message.channel_id,
    );
    match resolved.result {
        Err(halt) => halted(halt, store, resolved.pending),
        Ok(known) => if known is None && message.channel_name is Some {
            ended((), store, resolved.pending)
        } else if suppressed(store, server.id, message.user_id, now) {
            ended((), store, resolved.pending)
        } else {
            match checked_bot_user_id(config) {
                Err(error) => failed(error, store, resolved.pending),
                Ok(bot_id) => match known {
                    Some(room_id) => forwarded(
                        store,
                        resolved.pending,
                        config,
                        server,
                        message,
                        room_id,
                        bot_id,
                    ),
                    None => {
                        let made = direct_message::opened(
                            resolved.pending,
                            store,
                            config,
                            server,
                            message,
                            bot_id,
                        );
                        match made.result {
                            Err(halt) => halted(halt, store, made.pending),
                            Ok(None) => ended((), store, made.pending),
                            Ok(Some(room_id)) => forwarded(
                                store,
                                made.pending,
                                config,
                                server,
                                message,
                                room_id,
                                bot_id,
                            ),
                        }
                    },
                },
            }
        },
    }
}

/// The forwarding of a message is a transaction. One that stops before its end, for want
/// of an answer or with an error, leaves the store as it was: the record of a sender who
/// was registered on the way is not kept.
pub proof fn lemma_failed_forwarding_writes_nothing(
    store: StoreView,
    pending: Seq<ReplyView>,
    config: ConfigView,
    server: RocketchatServerView,
    message: MessageView,
    now: i64,
)
    ensures
        send(store, pending, config, server, message, now).result is Err ==> send(
            store,
            pending,
            config,
            server,
            message,
            now,
        ).store == store,
{
}

/// Whether a call changes anything on the homeserver.
pub open spec fn changes_homeserver(request: RequestView) -> bool {
    match request {
        RequestView::GetRoomTopic { .. } => false,
        RequestView::GetRoomMembers { .. } => false,
        RequestView::GetRoomCreator { .. } => false,
        RequestView::GetRoomAlias { .. } => false,
        RequestView::GetCanonicalAlias { .. } => false,
        RequestView::Probe { .. } => false,
        RequestView::Login { .. } => false,
        RequestView::ChannelsList { .. } => false,
        RequestView::DirectMessagesList { .. } => false,
        RequestView::UsersInfo { .. } => false,
        RequestView::PostChatMessage { .. } => false,
        _ => true,
    }
}

/// No echo. A user who is not virtual sends a text on Matrix at `sent_at`, in the room of
/// a channel, and the bridge forwards it to the end. While the window is open, a message
/// that the Rocket.Chat server sends in the name of that user is passed over, whatever
/// answers its calls get: the bridge asks for no call that changes anything on the
/// homeserver, and the store stays as the forwarding left it.
pub proof fn lemma_no_echo(
    store: StoreView,
    config: ConfigView,
    event: MessageEventView,
    sent_at: i64,
    answers: Seq<ReplyView>,
    alias: Seq<char>,
    server: RocketchatServerView,
    message: MessageView,
    now: i64,
    later_answers: Seq<ReplyView>,
)
    requires
        event.content is Text,
        crate::api::matrix::get_room_canonical_alias(answers, event.room_id).result == Ok::<
            Option<Seq<char>>,
            HaltView,
        >(Some(alias)),
        room::bridged_channel(config, store, alias) == Some((server, message.channel_id)),
        user_on_server(store.users_on_rocketchat_servers, event.user_id, server.id) is Some,
        !user_on_server(
            store.users_on_rocketchat_servers,
            event.user_id,
            server.id,
        )->0.is_virtual_user,
        logged_in(user_on_server(store.users_on_rocketchat_servers, event.user_id, server.id)->0),
        user_by_rocketchat_user_id(
            store.users_on_rocketchat_servers,
            server.id,
            message.user_id,
            false,
        ) is Some,
        user_by_rocketchat_user_id(
            store.users_on_rocketchat_servers,
            server.id,
            message.user_id,
            false,
        )->0.matrix_user_id == event.user_id,
        now - sent_at <= LOOP_WINDOW,
        message_handler::forward(store, answers, config, event, sent_at).result is Ok,
    ensures
        message_handler::forward(store, answers, config, event, sent_at).store
            == message_handler::store_after_message(store, event.user_id, sent_at),
        suppressed(
            message_handler::forward(store, answers, config, event, sent_at).store,
            server.id,
            message.user_id,
            now,
        ),
        send(
            message_handler::forward(store, answers, config, event, sent_at).store,
            later_answers,
            config,
            server,
            message,
            now,
        ).store == message_handler::forward(store, answers, config, event, sent_at).store,
        send(
            message_handler::forward(store, answers, config, event, sent_at).store,
            later_answers,
            config,
            server,
            message,
            now,
        ).result matches Err(HaltView::Ask(request)) ==> !changes_homeserver(request),
{
    lemma_message_sent_is_recorded(store.users, event.user_id, sent_at);
}

/// The call by which a message is delivered: its sender's virtual user sends its text into
/// the room.
pub open spec fn delivery(config: ConfigView, server: RocketchatServerView, message: MessageView, room_id: Seq<char>) -> RequestView {
    RequestView::SendTextMessageEvent {
        room_id,
        sender_id: virtual_user_id(config, server.id, message.user_id),
        body: BodyView::Plain(message.text),
    }
}

/// That the new name of a sender cannot be set as display name does not keep the sender's
/// message from being delivered. The answers are: the room of the channel; the failure to
/// set the display name; the members of the room, the sender among them. The bridge then
/// asks for the delivery.
pub proof fn lemma_renaming_failure_does_not_stop_delivery(
    store: StoreView,
    config: ConfigView,
    server: RocketchatServerView,
    message: MessageView,
    now: i64,
    room_id: Seq<char>,
    cause: Seq<char>,
    members: Seq<Seq<char>>,
)
    requires
        message.channel_name is Some,
        !suppressed(store, server.id, message.user_id, now),
        user_id_accepted(bot_user_id(config)),
        user_on_server(
            store.users_on_rocketchat_servers,
            virtual_user_id(config, server.id, message.user_id),
            server.id,
        ) is Some,
        user_on_server(
            store.users_on_rocketchat_servers,
            virtual_user_id(config, server.id, message.user_id),
            server.id,
        )->0.rocketchat_username != Some(message.user_name),
        members.contains(virtual_user_id(config, server.id, message.user_id)),
    ensures
        send(
            store,
            seq![ReplyView::Text(room_id), ReplyView::Failed(cause), ReplyView::Names(members)],
            config,
            server,
            message,
            now,
        ).result == Err::<(), HaltView>(HaltView::Ask(delivery(config, server, message, room_id))),
{
    let answers = seq![
        ReplyView::Text(room_id),
        ReplyView::Failed(cause),
        ReplyView::Names(members),
    ];
    let known = user_on_server(
        store.users_on_rocketchat_servers,
        virtual_user_id(config, server.id, message.user_id),
        server.id,
    )->0;
    assert(known.matrix_user_id == virtual_user_id(config, server.id, message.user_id)) by {
        crate::seqs::lemma_first_match_is_first(
            store.users_on_rocketchat_servers,
            |r: crate::db::user_on_rocketchat_server::UserOnRocketchatServerView|
                r.matrix_user_id == virtual_user_id(config, server.id, message.user_id)
                    && r.rocketchat_server_id == server.id,
            0,
        );
    }
    let one = crate::api::exchange::rest(answers);
    let two = crate::api::exchange::rest(one);
    let three = crate::api::exchange::rest(two);
    assert(one =~= seq![ReplyView::Failed(cause), ReplyView::Names(members)]);
    assert(two =~= seq![ReplyView::Names(members)]);
    assert(three =~= Seq::empty());
}

/// That the display name of a sender who is new cannot be set does not keep the sender's
/// message from being delivered. The answers are: the room of the channel; the
/// registration of the sender's virtual user; the failure to set the display name; the
/// members of the room, the sender not among them; the invitation of the sender and the
/// sender's joining. The bridge then asks for the delivery.
pub proof fn lemma_naming_failure_does_not_stop_delivery(
    store: StoreView,
    config: ConfigView,
    server: RocketchatServerView,
    message: MessageView,
    now: i64,
    room_id: Seq<char>,
    cause: Seq<char>,
    members: Seq<Seq<char>>,
)
    requires
        message.channel_name is Some,
        !suppressed(store, server.id, message.user_id, now),
        user_id_accepted(bot_user_id(config)),
        user_on_server(
            store.users_on_rocketchat_servers,
            virtual_user_id(config, server.id, message.user_id),
            server.id,
        ) is None,
        !members.contains(virtual_user_id(config, server.id, message.user_id)),
    ensures
        send(
            store,
            seq![
                ReplyView::Text(room_id),
                ReplyView::Done,
                ReplyView::Failed(cause),
                ReplyView::Names(members),
                ReplyView::Done,
                ReplyView::Done,
            ],
            config,
            server,
            message,
            now,
        ).result == Err::<(), HaltView>(HaltView::Ask(delivery(config, server, message, room_id))),
{
    let answers = seq![
        ReplyView::Text(room_id),
        ReplyView::Done,
        ReplyView::Failed(cause),
        ReplyView::Names(members),
        ReplyView::Done,
        ReplyView::Done,
    ];
    let one = crate::api::exchange::rest(answers);
    let two = crate::api::exchange::rest(one);
    let three = crate::api::exchange::rest(two);
    let four = crate::api::exchange::rest(three);
    let five = crate::api::exchange::rest(four);
    let six = crate::api::exchange::rest(five);
    assert(one =~= seq![
        ReplyView::Done,
        ReplyView::Failed(cause),
        ReplyView::Names(members),
        ReplyView::Done,
        ReplyView::Done,
    ]);
    assert(two =~= seq![
        ReplyView::Failed(cause),
        ReplyView::Names(members),
        ReplyView::Done,
        ReplyView::Done,
    ]);
    assert(three =~= seq![ReplyView::Names(members), ReplyView::Done, ReplyView::Done]);
    assert(four =~= seq![ReplyView::Done, ReplyView::Done]);
    assert(five =~= seq![ReplyView::Done]);
    assert(six =~= Seq::empty());
}

/// Whether the display name of a sender can be set makes no difference to the delivery of
/// the sender's message, into the room of a channel as into that of a conversation. Where
/// a delivery, over the answers `before`, stops to have the display name set, it goes on
/// in the same way after a failure as after a success, whatever the further answers
/// `after`: it asks for the same calls and ends with the same result.
pub proof fn lemma_display_name_answer_makes_no_difference_to_delivery(
    store: StoreView,
    config: ConfigView,
    server: RocketchatServerView,
    message: MessageView,
    room_id: Seq<char>,
    bot_id: Seq<char>,
    before: Seq<ReplyView>,
    after: Seq<ReplyView>,
    cause: Seq<char>,
)
    requires
        forwarded(store, before, config, server, message, room_id, bot_id).result matches Err(
            HaltView::Ask(request),
        ) && request is SetDisplayName,
    ensures
        forwarded(
            store,
            before + seq![ReplyView::Failed(cause)] + after,
            config,
            server,
            message,
            room_id,
            bot_id,
        ).result == forwarded(
            store,
            before + seq![ReplyView::Done] + after,
            config,
            server,
            message,
            room_id,
            bot_id,
        ).result,
{
    let failed = before + seq![ReplyView::Failed(cause)] + after;
    let done = before + seq![ReplyView::Done] + after;
    let id = virtual_user_id(config, server.id, message.user_id);
    let known = user_on_server(store.users_on_rocketchat_servers, id, server.id);
    if known is Some {
        assert(before.len() == 0);
        assert(rest(failed) =~= after);
        assert(rest(done) =~= after);
    } else {
        assert(before.len() == 1);
        assert(failed[0] == before[0]);
        assert(done[0] == before[0]);
        assert(rest(failed) =~= seq![ReplyView::Failed(cause)] + after);
        assert(rest(done) =~= seq![ReplyView::Done] + after);
        assert(rest(rest(failed)) =~= after);
        assert(rest(rest(done)) =~= after);
    }
}

/// Whether the display name of a sender can be set makes no difference to what becomes of
/// the sender's message into a room that is there.
proof fn lemma_display_name_in_a_room_that_is_there(
    store: StoreView,
    config: ConfigView,
    server: RocketchatServerView,
    message: MessageView,
    now: i64,
    before: Seq<ReplyView>,
    after: Seq<ReplyView>,
    cause: Seq<char>,
)
    requires
        room::matrix_id_from_rocketchat_channel_id(
            before,
            config,
            server.id,
            message.channel_id,
        ).result matches Ok(Some(_)),
        send(store, before, config, server, message, now).result matches Err(
            HaltView::Ask(request),
        ) && request is SetDisplayName,
    ensures
        send(
            store,
            before + seq![ReplyView::Failed(cause)] + after,
            config,
            server,
            message,
            now,
        ).result == send(store, before + seq![ReplyView::Done] + after, config, server, message, now).result,
{
    let failed = before + seq![ReplyView::Failed(cause)] + after;
    let done = before + seq![ReplyView::Done] + after;
    let id = virtual_user_id(config, server.id, message.user_id);
    let known = user_on_server(store.users_on_rocketchat_servers, id, server.id);
    assert(before.len() >= 1);
    assert(failed[0] == before[0]);
    assert(done[0] == before[0]);
    if known is Some {
        assert(before.len() == 1);
        assert(rest(failed) =~= seq![ReplyView::Failed(cause)] + after);
        assert(rest(done) =~= seq![ReplyView::Done] + after);
        assert(rest(rest(failed)) =~= after);
        assert(rest(rest(done)) =~= after);
    } else {
        assert(before.len() == 2);
        assert(rest(failed) =~= seq![before[1], ReplyView::Failed(cause)] + after);
        assert(rest(done) =~= seq![before[1], ReplyView::Done] + after);
        assert(rest(rest(failed)) =~= seq![ReplyView::Failed(cause)] + after);
        assert(rest(rest(done)) =~= seq![ReplyView::Done] + after);
        assert(rest(rest(rest(failed))) =~= after);
        assert(rest(rest(rest(done))) =~= after);
    }
}

/// Whether the display name of a sender can be set makes no difference to what becomes of
/// the sender's message into a room that is made for it.
proof fn lemma_display_name_in_a_room_that_is_made(
    store: StoreView,
    config: ConfigView,
    server: RocketchatServerView,
    message: MessageView,
    now: i64,
    before: Seq<ReplyView>,
    after: Seq<ReplyView>,
    cause: Seq<char>,
)
    requires
        room::matrix_id_from_rocketchat_channel_id(
            before,
            config,
            server.id,
            message.channel_id,
        ).result == Ok::<Option<Seq<char>>, HaltView>(None),
        send(store, before, config, server, message, now).result matches Err(
            HaltView::Ask(request),
        ) && request is SetDisplayName,
    ensures
        send(
            store,
            before + seq![ReplyView::Failed(cause)] + after,
            config,
            server,
            message,
            now,
        ).result == send(store, before + seq![ReplyView::Done] + after, config, server, message, now).result,
{
    let failed = before + seq![ReplyView::Failed(cause)] + after;
    let done = before + seq![ReplyView::Done] + after;
    let failed_tail = seq![ReplyView::Failed(cause)] + after;
    let done_tail = seq![ReplyView::Done] + after;
    assert(before.len() >= 1);
    assert(failed[0] == before[0]);
    assert(done[0] == before[0]);
    assert(rest(failed) =~= rest(before) + failed_tail);
    assert(rest(done) =~= rest(before) + done_tail);
    let bot_id = bot_user_id(config);
    let made = direct_message::opened(rest(before), store, config, server, message, bot_id);
    direct_message::lemma_opening_reads_its_own_answers(
        rest(before),
        failed_tail,
        store,
        config,
        server,
        message,
        bot_id,
    );
    direct_message::lemma_opening_reads_its_own_answers(
        rest(before),
        done_tail,
        store,
        config,
        server,
        message,
        bot_id,
    );
    assert(made.result is Ok);
    assert(made.result->Ok_0 is Some);
    let room_id = made.result->Ok_0->0;
    assert(made.pending + failed_tail =~= made.pending + seq![ReplyView::Failed(cause)] + after);
    assert(made.pending + done_tail =~= made.pending + seq![ReplyView::Done] + after);
    lemma_display_name_answer_makes_no_difference_to_delivery(
        store,
        config,
        server,
        message,
        room_id,
        bot_id,
        made.pending,
        after,
        cause,
    );
}

/// Whether the display name of a sender can be set makes no difference to what becomes of
/// the sender's message. Where a run, over the answers `before`, stops to have the display
/// name set, it goes on in the same way after a failure as after a success, whatever the
/// further answers `after`: it asks for the same calls and ends with the same result.
pub proof fn lemma_display_name_answer_makes_no_difference(
    store: StoreView,
    config: ConfigView,
    server: RocketchatServerView,
    message: MessageView,
    now: i64,
    before: Seq<ReplyView>,
    after: Seq<ReplyView>,
    cause: Seq<char>,
)
    requires
        send(store, before, config, server, message, now).result matches Err(
            HaltView::Ask(request),
        ) && request is SetDisplayName,
    ensures
        send(
            store,
            before + seq![ReplyView::Failed(cause)] + after,
            config,
            server,
            message,
            now,
        ).result == send(store, before + seq![ReplyView::Done] + after, config, server, message, now).result,
{
    let resolved = room::matrix_id_from_rocketchat_channel_id(
        before,
        config,
        server.id,
        message.channel_id,
    );
    match resolved.result {
        Ok(Some(_)) => {
            lemma_display_name_in_a_room_that_is_there(
                store,
                config,
                server,
                message,
                now,
                before,
                after,
                cause,
            );
        },
        Ok(None) => {
            lemma_display_name_in_a_room_that_is_made(
                store,
                config,
                server,
                message,
                now,
                before,
                after,
                cause,
            );
        },
        Err(_) => {},
    }
}

/// Forwards the messages of Rocket.Chat servers.
#[derive(Debug, PartialEq, Eq)]
pub struct Forwarder<'a> {
    /// The configuration of the application service.
    pub config: &'a Config,
}

impl<'a> Forwarder<'a> {
    /// Whether a message that was sent at `last_message_sent` lies within the window at
    /// `now`.
    pub fn within_window(last_message_sent: i64, now: i64) -> (within: bool)
        ensures
            within == within_window(last_message_sent, now),
    {
        let elapsed: i128 = now as i128 - last_message_sent as i128;
        elapsed <= LOOP_WINDOW as i128
    }

    /// Whether a message of the given user of a Rocket.Chat server is passed over at
    /// `now`.
    pub fn is_suppressed(store: &Store, rocketchat_server_id: &str, rocketchat_user_id: &str, now: i64) -> (yes:
        bool)
        ensures
            yes == suppressed(store.deep_view(), rocketchat_server_id@, rocketchat_user_id@, now),
    {
        let sender = match UserOnRocketchatServer::find_by_rocketchat_user_id(
            store,
            rocketchat_server_id,
            rocketchat_user_id,
            false,
        ) {
            Some(sender) => sender,
            None => return false,
        };
        match User::find(store, sender.matrix_user_id.as_str()) {
            Some(user) => Forwarder::within_window(user.last_message_sent, now),
            None => false,
        }
    }

    /// Who sent a message, or the status with which the message is turned away: 422 for a
    /// message that could not be read, 401 for one without a token, 403 for one with a
    /// token that no server has.
    pub fn authenticate(store: &Store, payload: &Option<Message>) -> (server: Result<
        RocketchatServer,
        u16,
    >)
        ensures
            match server {
                Ok(server) => authenticated(store.deep_view(), payload.deep_view()) matches Ok(found)
                    && found == server.deep_view(),
                Err(status) => authenticated(store.deep_view(), payload.deep_view()) matches Err(code)
                    && code == status,
            },
    {
        let message = match payload {
            Some(message) => message,
            None => return Err(STATUS_UNPROCESSABLE_ENTITY),
        };
        let token = match &message.token {
            Some(token) => token,
            None => return Err(STATUS_UNAUTHORIZED),
        };
        match RocketchatServer::find_by_token(store, token.as_str()) {
            Some(server) => Ok(server),
            None => Err(STATUS_FORBIDDEN),
        }
    }

    /// Delivers a message into the room of the given id, in the name of the virtual user
    /// of its sender. A delivery that fails leaves the store as it was.
    pub fn deliver(
        &self,
        store: &mut Store,
        calls: &mut Transcript,
        rocketchat_server: &RocketchatServer,
        message: &Message,
        matrix_room_id: &str,
        bot_id: &str,
    ) -> (result: Result<(), Halt>)
        requires
            old(store).wf(),
        ensures
            final(store).wf(),
            ran(result, final(store).deep_view(), final(calls).pending()) == forwarded(
                old(store).deep_view(),
                old(calls).pending(),
                self.config.deep_view(),
                rocketchat_server.deep_view(),
                message.deep_view(),
                matrix_room_id@,
                bot_id@,
            ),
            result is Err ==> final(store).deep_view() == old(store).deep_view(),
    {
        let snapshot = store.clone();
        let virtual_user_handler = VirtualUserHandler { config: self.config };
        let sender = match virtual_user_handler.find_or_register(
            store,
            calls,
            rocketchat_server.id.as_str(),
            message.user_id.as_str(),
            message.user_name.as_str(),
        ) {
            Ok(sender) => sender,
            Err(halt) => return Err(halt),
        };
        match virtual_user_handler.add_to_room(
            calls,
            sender.matrix_user_id.as_str(),
            bot_id,
            matrix_room_id,
        ) {
            Ok(()) => {},
            Err(halt) => {
                *store = snapshot;
                return Err(halt);
            },
        }
        match MatrixApi::send_text_message_event(
            calls,
            matrix_room_id,
            sender.matrix_user_id.as_str(),
            Body::Plain(message.text.clone()),
        ) {
            Ok(()) => Ok(()),
            Err(halt) => {
                *store = snapshot;
                Err(halt)
            },
        }
    }

    /// Forwards a message of a Rocket.Chat server into the room of its channel, or of its
    /// conversation, in the name of the virtual user of its sender. A conversation that
    /// has no room yet gets one.
    pub fn send(
        &self,
        store: &mut Store,
        calls: &mut Transcript,
        rocketchat_server: &RocketchatServer,
        message: &Message,
        now: i64,
    ) -> (result: Result<(), Halt>)
        requires
            old(store).wf(),
        ensures
            final(store).wf(),
            ran(result, final(store).deep_view(), final(calls).pending()) == send(
                old(store).deep_view(),
                old(calls).pending(),
                self.config.deep_view(),
                rocketchat_server.deep_view(),
                message.deep_view(),
                now,
            ),
            result is Err ==> final(store).deep_view() == old(store).deep_view(),
    {
        let known = match Room::matrix_id_from_rocketchat_channel_id(
            self.config,
            calls,
            rocketchat_server.id.as_str(),
            message.channel_id.as_str(),
        ) {
            Ok(known) => known,
            Err(halt) => return Err(halt),
        };
        if known.is_none() && message.channel_name.is_some() {
            return Ok(());
        }
        if Forwarder::is_suppressed(
            store,
            rocketchat_server.id.as_str(),
            message.user_id.as_str(),
            now,
        ) {
            return Ok(());
        }
        let bot_id = match self.config.matrix_bot_user_id() {
            Ok(bot_id) => bot_id,
            Err(error) => return Err(Halt::Fail(error)),
        };
        let matrix_room_id = match known {
            Some(matrix_room_id) => matrix_room_id,
            None => match direct_message::room_for(
                self.config,
                store,
                calls,
                rocketchat_server,
                message,
                bot_id.as_str(),
            ) {
                Ok(Some(matrix_room_id)) => matrix_room_id,
                Ok(None) => return Ok(()),
                Err(halt) => return Err(halt),
            },
        };
        self.deliver(
            store,
            calls,
            rocketchat_server,
            message,
            matrix_room_id.as_str(),
            bot_id.as_str(),
        )
    }
}

} // verus!
