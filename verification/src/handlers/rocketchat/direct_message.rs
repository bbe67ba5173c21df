//! The rooms of direct messages: how a conversation between two users of a Rocket.Chat
//! server comes to its room.
//!
//! A conversation is a channel without a name. Its room carries the alias that the id of
//! the conversation gives, as the room of a bridged channel carries that of its channel:
//! by that alias a message of the server finds the room, and by the canonical alias of
//! the room a message of the room finds the conversation. The room is made when the
//! first message of the conversation comes in, for the user of the bridge who is part of
//! the conversation.

use vstd::prelude::*;
use crate::api::exchange::{
    give,
    reached,
    rest,
    stop,
    Halt,
    HaltView,
    ReplyView,
    RequestView,
    Step,
    Transcript,
};
use crate::api::matrix;
use crate::api::matrix::MatrixApi;
use crate::api::rocketchat;
use crate::api::rocketchat::{Channel, ChannelView, Message, MessageView, RocketchatApi};
use crate::config::{Config, ConfigView};
use crate::db::rocketchat_server::{RocketchatServer, RocketchatServerView};
use crate::db::room;
use crate::db::room::{direct_message_marker, room_alias_id, room_alias_name, Room};
use crate::db::store::{Store, StoreView};
use crate::db::user_on_rocketchat_server::{UserOnRocketchatServer, UserOnRocketchatServerView};
use crate::handlers::events::command_handler::{api_of, CommandHandler};
use crate::handlers::events::room_handler;
use crate::handlers::events::room_handler::RoomHandler;
use crate::text::text;

verus! {

/// Whether the user of the record can be the one to whom a user of the server writes: the
/// record is on the server, it is not that of a virtual user, the user is logged in, and
/// is not the one who writes.
pub open spec fn can_receive(
    row: UserOnRocketchatServerView,
    rocketchat_server_id: Seq<char>,
    sender_id: Seq<char>,
) -> bool {
    &&& row.rocketchat_server_id == rocketchat_server_id
    &&& !row.is_virtual_user
    &&& row.rocketchat_auth_token is Some
    &&& row.rocketchat_user_id is Some
    &&& row.rocketchat_user_id != Some(sender_id)
}

/// Whether a channel of the given id is among `channels`.
pub open spec fn lists_channel(channels: Seq<ChannelView>, channel_id: Seq<char>) -> bool {
    exists|i: int| 0 <= i < channels.len() && (#[trigger] channels[i]).id == channel_id
}

/// The user to whom a direct message goes, sought among the records of the store from
/// index `from` on: the first user who can receive it and whose conversations, as the
/// server lists them in the user's name, hold the conversation of the message.
pub open spec fn recipient_from(
    pending: Seq<ReplyView>,
    store: StoreView,
    server: RocketchatServerView,
    message: MessageView,
    from: int,
) -> Step<Option<UserOnRocketchatServerView>>
    decreases store.users_on_rocketchat_servers.len() - from,
{
    let rows = store.users_on_rocketchat_servers;
    if from < 0 || from >= rows.len() {
        give(None, pending)
    } else if !can_receive(rows[from], server.id, message.user_id) {
        recipient_from(pending, store, server, message, from + 1)
    } else {
        let listed = rocketchat::direct_messages_list(pending, api_of(server, rows[from]));
        match listed.result {
            Err(halt) => stop(halt, listed.pending),
            Ok(channels) => if lists_channel(channels, message.channel_id) {
                give(Some(rows[from]), listed.pending)
            } else {
                recipient_from(listed.pending, store, server, message, from + 1)
            },
        }
    }
}

/// The name of the room of the conversation with the user of the given name.
pub open spec fn room_name(user_name: Seq<char>) -> Seq<char> {
    user_name + direct_message_marker()
}

/// What [`room_for`] gives over the answers `pending`: the server is probed and the user
/// is sought to whom the message goes. Where there is none, there is no room. Else the bot
/// makes a room with the alias of the conversation, named after the one who writes,
/// invites the user into it, and makes the alias the canonical alias of the room.
pub open spec fn opened(
    pending: Seq<ReplyView>,
    store: StoreView,
    config: ConfigView,
    server: RocketchatServerView,
    message: MessageView,
    bot_id: Seq<char>,
) -> Step<Option<Seq<char>>> {
    let probed = rocketchat::connected(pending, server.rocketchat_url);
    match probed.result {
        Err(halt) => stop(halt, probed.pending),
        Ok(_) => {
            let sought = recipient_from(probed.pending, store, server, message, 0);
            match sought.result {
                Err(halt) => stop(halt, sought.pending),
                Ok(None) => give(None, sought.pending),
                Ok(Some(recipient)) => {
                    let created = room_handler::create_room(
                        sought.pending,
                        config,
                        message.channel_id,
                        server.id,
                        bot_id,
                        recipient.matrix_user_id,
                        Some(room_name(message.user_name)),
                    );
                    match created.result {
                        Err(halt) => stop(halt, created.pending),
                        Ok(room_id) => {
                            let aliased = matrix::put_canonical_room_alias(
                                created.pending,
                                room_id,
                                Some(room_alias_id(config, server.id, message.channel_id)),
                            );
                            match aliased.result {
                                Err(halt) => stop(halt, aliased.pending),
                                Ok(_) => give(Some(room_id), aliased.pending),
                            }
                        },
                    }
                },
            }
        },
    }
}

/// The search for the user to whom a message goes reads the answers to its own calls and
/// no others: where it comes to its end over the answers `pending`, it comes to the same
/// end over `pending` with `more` after them, and leaves `more` unread as well.
pub proof fn lemma_search_reads_its_own_answers(
    pending: Seq<ReplyView>,
    more: Seq<ReplyView>,
    store: StoreView,
    server: RocketchatServerView,
    message: MessageView,
    from: int,
)
    requires
        recipient_from(pending, store, server, message, from).result is Ok,
    ensures
        recipient_from(pending + more, store, server, message, from).result == recipient_from(
            pending,
            store,
            server,
            message,
            from,
        ).result,
        recipient_from(pending + more, store, server, message, from).pending == recipient_from(
            pending,
            store,
            server,
            message,
            from,
        ).pending + more,
    decreases store.users_on_rocketchat_servers.len() - from,
{
    let rows = store.users_on_rocketchat_servers;
    if from < 0 || from >= rows.len() {
    } else if !can_receive(rows[from], server.id, message.user_id) {
        lemma_search_reads_its_own_answers(pending, more, store, server, message, from + 1);
    } else {
        let listed = rocketchat::direct_messages_list(pending, api_of(server, rows[from]));
        assert(pending.len() > 0);
        assert((pending + more)[0] == pending[0]);
        assert(rest(pending + more) =~= rest(pending) + more);
        if let Ok(channels) = listed.result {
            if !lists_channel(channels, message.channel_id) {
                lemma_search_reads_its_own_answers(
                    listed.pending,
                    more,
                    store,
                    server,
                    message,
                    from + 1,
                );
            }
        }
    }
}

/// The search for the user to whom a message goes asks for nothing but the conversations
/// of users.
pub proof fn lemma_search_asks_for_conversations(
    pending: Seq<ReplyView>,
    store: StoreView,
    server: RocketchatServerView,
    message: MessageView,
    from: int,
)
    ensures
        recipient_from(pending, store, server, message, from).result matches Err(
            HaltView::Ask(request),
        ) ==> request is DirectMessagesList,
    decreases store.users_on_rocketchat_servers.len() - from,
{
    let rows = store.users_on_rocketchat_servers;
    if from < 0 || from >= rows.len() {
    } else if !can_receive(rows[from], server.id, message.user_id) {
        lemma_search_asks_for_conversations(pending, store, server, message, from + 1);
    } else {
        let listed = rocketchat::direct_messages_list(pending, api_of(server, rows[from]));
        if let Ok(channels) = listed.result {
            if !lists_channel(channels, message.channel_id) {
                lemma_search_asks_for_conversations(
                    listed.pending,
                    store,
                    server,
                    message,
                    from + 1,
                );
            }
        }
    }
}

/// The making of the room of a conversation sets no display name, and reads the answers to
/// its own calls and no others: where it comes to its end over the answers `pending`, it
/// comes to the same end over `pending` with `more` after them, and leaves `more` unread
/// as well.
pub proof fn lemma_opening_reads_its_own_answers(
    pending: Seq<ReplyView>,
    more: Seq<ReplyView>,
    store: StoreView,
    config: ConfigView,
    server: RocketchatServerView,
    message: MessageView,
    bot_id: Seq<char>,
)
    ensures
        opened(pending, store, config, server, message, bot_id).result matches Err(
            HaltView::Ask(request),
        ) ==> !(request is SetDisplayName),
        opened(pending, store, config, server, message, bot_id).result is Ok ==> opened(
            pending + more,
            store,
            config,
            server,
            message,
            bot_id,
        ).result == opened(pending, store, config, server, message, bot_id).result && opened(
            pending + more,
            store,
            config,
            server,
            message,
            bot_id,
        ).pending == opened(pending, store, config, server, message, bot_id).pending + more,
{
    let probed = rocketchat::connected(pending, server.rocketchat_url);
    lemma_search_asks_for_conversations(probed.pending, store, server, message, 0);
    if opened(pending, store, config, server, message, bot_id).result is Ok {
        assert(pending.len() > 0);
        assert((pending + more)[0] == pending[0]);
        assert(rest(pending + more) =~= rest(pending) + more);
        let sought = recipient_from(probed.pending, store, server, message, 0);
        lemma_search_reads_its_own_answers(probed.pending, more, store, server, message, 0);
        if let Ok(Some(recipient)) = sought.result {
            let p1 = sought.pending;
            assert(p1.len() > 0);
            assert((p1 + more)[0] == p1[0]);
            assert(rest(p1 + more) =~= rest(p1) + more);
            let p2 = rest(p1);
            assert(p2.len() > 0);
            assert((p2 + more)[0] == p2[0]);
            assert(rest(p2 + more) =~= rest(p2) + more);
            let p3 = rest(p2);
            assert(p3.len() > 0);
            assert((p3 + more)[0] == p3[0]);
            assert(rest(p3 + more) =~= rest(p3) + more);
            let p4 = rest(p3);
            assert(p4.len() > 0);
            assert((p4 + more)[0] == p4[0]);
            assert(rest(p4 + more) =~= rest(p4) + more);
        }
    }
}

/// How a conversation comes to its room, and the room to its conversation. The server has
/// answered the probe, and the search over the answers `listing` has found the user
/// `recipient` to whom the message goes. Then the bridge asks, in this order: that the bot
/// create a room named after the one who writes, with the alias name of the conversation;
/// once the room has its power levels, that the bot invite `recipient` into it; and that
/// the alias of the conversation be made the canonical alias of the room. With that done,
/// the room is the room of the conversation. The alias is the one under which a message of
/// the conversation looks for its room, and the one by which a message that is sent in the
/// room finds the conversation.
pub proof fn lemma_conversation_gets_its_room(
    store: StoreView,
    config: ConfigView,
    server: RocketchatServerView,
    message: MessageView,
    bot_id: Seq<char>,
    listing: Seq<ReplyView>,
    recipient: UserOnRocketchatServerView,
    room_id: Seq<char>,
)
    requires
        recipient_from(listing, store, server, message, 0) == give(
            Some(recipient),
            Seq::<ReplyView>::empty(),
        ),
    ensures
        opened(seq![ReplyView::Done] + listing, store, config, server, message, bot_id).result
            == Err::<Option<Seq<char>>, HaltView>(
            HaltView::Ask(
                RequestView::CreateRoom {
                    room_name: Some(room_name(message.user_name)),
                    room_alias_name: Some(room_alias_name(config, server.id, message.channel_id)),
                    creator_id: bot_id,
                },
            ),
        ),
        opened(
            seq![ReplyView::Done] + listing + seq![ReplyView::Text(room_id), ReplyView::Done],
            store,
            config,
            server,
            message,
            bot_id,
        ).result == Err::<Option<Seq<char>>, HaltView>(
            HaltView::Ask(
                RequestView::Invite {
                    room_id,
                    user_id: recipient.matrix_user_id,
                    sender_id: bot_id,
                },
            ),
        ),
        opened(
            seq![ReplyView::Done] + listing + seq![
                ReplyView::Text(room_id),
                ReplyView::Done,
                ReplyView::Done,
            ],
            store,
            config,
            server,
            message,
            bot_id,
        ).result == Err::<Option<Seq<char>>, HaltView>(
            HaltView::Ask(
                RequestView::PutCanonicalRoomAlias {
                    room_id,
                    canonical_alias: Some(room_alias_id(config, server.id, message.channel_id)),
                },
            ),
        ),
        opened(
            seq![ReplyView::Done] + listing + seq![
                ReplyView::Text(room_id),
                ReplyView::Done,
                ReplyView::Done,
                ReplyView::Done,
            ],
            store,
            config,
            server,
            message,
            bot_id,
        ) == give(Some(room_id), Seq::<ReplyView>::empty()),
        room::matrix_id_from_rocketchat_channel_id(
            Seq::empty(),
            config,
            server.id,
            message.channel_id,
        ).result == Err::<Option<Seq<char>>, HaltView>(
            HaltView::Ask(
                RequestView::GetRoomAlias {
                    alias: room_alias_id(config, server.id, message.channel_id),
                },
            ),
        ),
{
    let made = ReplyView::Text(room_id);
    let done = ReplyView::Done;
    let none = Seq::<ReplyView>::empty();
    let two = seq![made, done];
    let three = seq![made, done, done];
    let four = seq![made, done, done, done];
    lemma_search_reads_its_own_answers(listing, none, store, server, message, 0);
    lemma_search_reads_its_own_answers(listing, two, store, server, message, 0);
    lemma_search_reads_its_own_answers(listing, three, store, server, message, 0);
    lemma_search_reads_its_own_answers(listing, four, store, server, message, 0);
    assert(rest(seq![done] + listing) =~= listing + none);
    assert(rest(seq![done] + listing + two) =~= listing + two);
    assert(rest(seq![done] + listing + three) =~= listing + three);
    assert(rest(seq![done] + listing + four) =~= listing + four);
    assert(none + two =~= two);
    assert(none + three =~= three);
    assert(none + four =~= four);
    assert(rest(two) =~= seq![done]);
    assert(rest(rest(two)) =~= none);
    assert(rest(three) =~= seq![done, done]);
    assert(rest(rest(three)) =~= seq![done]);
    assert(rest(rest(rest(three))) =~= none);
    assert(rest(four) =~= seq![done, done, done]);
    assert(rest(rest(four)) =~= seq![done, done]);
    assert(rest(rest(rest(four))) =~= seq![done]);
    assert(rest(rest(rest(rest(four)))) =~= none);
}

/// Whether the user of the record can be the one to whom the user of the id `sender_id`
/// writes on the server.
pub fn is_possible_recipient(
    row: &UserOnRocketchatServer,
    rocketchat_server_id: &str,
    sender_id: &str,
) -> (yes: bool)
    ensures
        yes == can_receive(row.deep_view(), rocketchat_server_id@, sender_id@),
{
    if row.is_virtual_user || row.rocketchat_auth_token.is_none() {
        return false;
    }
    match &row.rocketchat_user_id {
        None => false,
        Some(id) => {
            let on_server = row.rocketchat_server_id == text(rocketchat_server_id);
            let writes = *id == text(sender_id);
            on_server && !writes
        },
    }
}

/// Whether a channel of the given id is among `channels`.
pub fn has_channel(channels: &Vec<Channel>, channel_id: &str) -> (yes: bool)
    ensures
        yes == lists_channel(channels.deep_view(), channel_id@),
{
    let wanted = text(channel_id);
    let mut i: usize = 0;
    while i < channels.len()
        invariant
            i <= channels.len(),
            wanted@ == channel_id@,
            forall|j: int| 0 <= j < i ==> (#[trigger] channels.deep_view()[j]).id != channel_id@,
        decreases channels.len() - i,
    {
        if channels[i].id == wanted {
            assert(channels.deep_view()[i as int].id == channel_id@);
            return true;
        }
        i = i + 1;
    }
    false
}

/// The user to whom a direct message goes: the first user of the store who can receive
/// it and whose conversations hold the conversation of the message.
pub fn recipient(
    store: &Store,
    calls: &mut Transcript,
    rocketchat_server: &RocketchatServer,
    message: &Message,
) -> (result: Result<Option<UserOnRocketchatServer>, Halt>)
    ensures
        reached(result, final(calls).pending()) == recipient_from(
            old(calls).pending(),
            store.deep_view(),
            rocketchat_server.deep_view(),
            message.deep_view(),
            0,
        ),
{
    let ghost whole = recipient_from(
        calls.pending(),
        store.deep_view(),
        rocketchat_server.deep_view(),
        message.deep_view(),
        0,
    );
    let mut i: usize = 0;
    while i < store.users_on_rocketchat_servers.len()
        invariant
            i <= store.users_on_rocketchat_servers.len(),
            whole == recipient_from(
                old(calls).pending(),
                store.deep_view(),
                rocketchat_server.deep_view(),
                message.deep_view(),
                0,
            ),
            whole == recipient_from(
                calls.pending(),
                store.deep_view(),
                rocketchat_server.deep_view(),
                message.deep_view(),
                i as int,
            ),
        decreases store.users_on_rocketchat_servers.len() - i,
    {
        let row = &store.users_on_rocketchat_servers[i];
        assert(store.deep_view().users_on_rocketchat_servers[i as int] == row.deep_view());
        if is_possible_recipient(
            row,
            rocketchat_server.id.as_str(),
            message.user_id.as_str(),
        ) {
            let api = RocketchatApi {
                rocketchat_url: rocketchat_server.rocketchat_url.clone(),
                user_id: CommandHandler::text_or_empty(&row.rocketchat_user_id),
                auth_token: CommandHandler::text_or_empty(&row.rocketchat_auth_token),
            };
            let channels = match api.direct_messages_list(calls) {
                Ok(channels) => channels,
                Err(halt) => return Err(halt),
            };
            if has_channel(&channels, message.channel_id.as_str()) {
                return Ok(Some(row.clone()));
            }
        }
        i = i + 1;
    }
    Ok(None)
}

/// The room of a conversation that has none yet: the room that the bot makes for the
/// user to whom the message goes, or none where the bridge knows no such user.
pub fn room_for(
    config: &Config,
    store: &Store,
    calls: &mut Transcript,
    rocketchat_server: &RocketchatServer,
    message: &Message,
    bot_id: &str,
) -> (result: Result<Option<String>, Halt>)
    ensures
        reached(result, final(calls).pending()) == opened(
            old(calls).pending(),
            store.deep_view(),
            config.deep_view(),
            rocketchat_server.deep_view(),
            message.deep_view(),
            bot_id@,
        ),
{
    match RocketchatApi::new(calls, rocketchat_server.rocketchat_url.clone()) {
        Ok(_) => {},
        Err(halt) => return Err(halt),
    }
    let receiver = match recipient(store, calls, rocketchat_server, message) {
        Ok(Some(receiver)) => receiver,
        Ok(None) => return Ok(None),
        Err(halt) => return Err(halt),
    };
    proof {
        reveal_strlit("DMRocketChat");
    }
    assert("DMRocketChat"@ =~= direct_message_marker());
    let mut name = message.user_name.clone();
    name.append("DMRocketChat");
    let room_handler = RoomHandler::new(config);
    let room_id = match room_handler.create_room(
        calls,
        message.channel_id.as_str(),
        rocketchat_server.id.as_str(),
        bot_id,
        receiver.matrix_user_id.as_str(),
        Some(name),
    ) {
        Ok(room_id) => room_id,
        Err(halt) => return Err(halt),
    };
    let alias = Room::build_room_alias_id(
        config,
        rocketchat_server.id.as_str(),
        message.channel_id.as_str(),
    );
    match MatrixApi::put_canonical_room_alias(calls, room_id.as_str(), Some(alias)) {
        Ok(()) => Ok(Some(room_id)),
        Err(halt) => Err(halt),
    }
}

} // verus!
