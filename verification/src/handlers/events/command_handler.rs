//! The commands that users give in admin rooms.

use vstd::prelude::*;
use crate::config::checked_bot_user_id;
use crate::api::exchange::{
    checked,
    fail,
    give,
    reached,
    rest,
    stop,
    Body,
    BodyView,
    Halt,
    HaltView,
    ReplyView,
    RequestView,
    Step,
    Transcript,
};
use crate::api::matrix;
use crate::api::matrix::MatrixApi;
use crate::api::rocketchat;
use crate::api::rocketchat::{display_name, Channel, ChannelView, RocketchatApi, RocketchatApiView};
use crate::config::{bot_user_id, usable, Config, ConfigView};
use crate::db::rocketchat_server::{
    connected_servers,
    inserted,
    lemma_inserted_is_found,
    server_by_id,
    server_by_token,
    server_by_url,
    valid_server_id,
    RocketchatServer,
    RocketchatServerView,
};
use crate::db::room;
use crate::db::room::{
    admin_room_state,
    contains_name,
    other_users,
    room_alias_id,
    AdminRoomState,
    AdminRoomStateView,
    Room,
};
use crate::db::store::{Store, StoreView};
use crate::db::user_on_rocketchat_server::{
    lemma_upsert_adds_at_most_one,
    lemma_upsert_idempotent,
    lemma_upserted_well_formed,
    logged_in,
    upserted,
    user_on_server,
    users_on_servers_well_formed,
    UserOnRocketchatServer,
    UserOnRocketchatServerView,
};
use crate::errors::{
    connect_with_invalid_rocketchat_server_id,
    connect_without_rocketchat_server_id,
    room_already_connected,
    room_not_connected,
    room_not_empty,
    rocketchat_channel_not_found,
    rocketchat_join_first,
    rocketchat_server_already_connected,
    rocketchat_server_id_already_in_use,
    rocketchat_token_already_in_use,
    rocketchat_token_missing,
    unbridge_of_not_bridged_room,
    user_on_rocketchat_server_not_found,
    Error,
    ErrorView,
};
use crate::handlers::events::room_handler;
use crate::handlers::events::room_handler::RoomHandler;
use crate::handlers::rocketchat::login;
use crate::handlers::rocketchat::login::{Credentials, CredentialsView, Login};
use crate::handlers::rocketchat::virtual_user_handler::store_with_user;
use crate::handlers::run::{ended, failed, halted, ran, undone, with_store, Run};
use crate::i18n::{Message, MessageKey, MessageView, VarName, VarValue, VarValueView};
use crate::models::{MessageContent, MessageContentView, MessageEvent, MessageEventView};
use crate::seqs::{find_first, lemma_first_match, lemma_first_match_is_first};
use crate::text::{concat_from, concat_tokens, join, joined, split_whitespace, text, tokens};

verus! {

/// The lines that list the servers from index `from` on: for each server an asterisk, a
/// space, its address and a line feed.
pub open spec fn server_lines(servers: Seq<RocketchatServerView>, from: int) -> Seq<char>
    decreases servers.len() - from,
{
    if from < 0 || from >= servers.len() {
        Seq::empty()
    } else {
        seq!['*', ' '] + servers[from].rocketchat_url + seq!['\n'] + server_lines(servers, from + 1)
    }
}

/// What the instructions for connecting show in place of the list of servers: the lines
/// of the servers that have a token, or the message that there is none.
pub open spec fn server_list(store: StoreView) -> VarValueView {
    if connected_servers(store.rocketchat_servers).len() == 0 {
        VarValueView::Translated(MessageKey::NoRocketchatServerConnected)
    } else {
        VarValueView::Text(server_lines(connected_servers(store.rocketchat_servers), 0))
    }
}

/// The help for a room that is connected to no server: how to connect, and the servers
/// that there are.
pub open spec fn connection_instructions(store: StoreView, as_url: Seq<char>) -> MessageView {
    MessageView {
        key: MessageKey::ConnectionInstructions,
        vars: seq![
            (VarName::AsUrl, VarValueView::Text(as_url)),
            (VarName::ServerList, server_list(store)),
        ],
    }
}

/// The help for a room that is connected to a server on which its user is not logged in.
pub open spec fn login_instructions(
    rocketchat_url: Seq<char>,
    as_url: Seq<char>,
    matrix_user_id: Seq<char>,
) -> MessageView {
    MessageView {
        key: MessageKey::LoginInstructions,
        vars: seq![
            (VarName::RocketchatUrl, VarValueView::Text(rocketchat_url)),
            (VarName::AsUrl, VarValueView::Text(as_url)),
            (VarName::MatrixUserId, VarValueView::Text(matrix_user_id)),
        ],
    }
}

/// The help for a room whose user is logged in.
pub open spec fn usage_instructions(rocketchat_url: Seq<char>) -> MessageView {
    MessageView {
        key: MessageKey::UsageInstructions,
        vars: seq![(VarName::RocketchatUrl, VarValueView::Text(rocketchat_url))],
    }
}

/// The help for a room, by how far the room has come: how to connect, how to log in, or
/// the commands.
pub open spec fn help_message(
    store: StoreView,
    state: AdminRoomStateView,
    as_url: Seq<char>,
    matrix_user_id: Seq<char>,
) -> MessageView {
    match state {
        AdminRoomStateView::Adopted => connection_instructions(store, as_url),
        AdminRoomStateView::Connected(server) => login_instructions(
            server.rocketchat_url,
            as_url,
            matrix_user_id,
        ),
        AdminRoomStateView::LoggedIn(server, _) => usage_instructions(server.rocketchat_url),
    }
}

/// What [`CommandHandler::build_help_message`] gives over the answers `pending`.
pub open spec fn build_help_message(
    pending: Seq<ReplyView>,
    store: StoreView,
    as_url: Seq<char>,
    room_id: Seq<char>,
    matrix_user_id: Seq<char>,
) -> Step<MessageView> {
    let connected = room::rocketchat_server_for_admin_room(pending, store, room_id);
    match connected.result {
        Err(halt) => stop(halt, connected.pending),
        Ok(server) => give(
            help_message(
                store,
                admin_room_state(store, server, matrix_user_id),
                as_url,
                matrix_user_id,
            ),
            connected.pending,
        ),
    }
}

/// The commands of an admin room.
#[derive(Clone, Copy, Debug, PartialEq, Eq, Structural)]
pub enum Command {
    /// `connect`: connect the room to a Rocket.Chat server.
    Connect,
    /// `help`: show the help.
    Help,
    /// `login`: log in on the server.
    Login,
    /// `list`: list the channels of the server.
    List,
    /// `bridge`: bridge a channel.
    Bridge,
    /// `unbridge`: unbridge a channel.
    Unbridge,
    /// Anything else.
    Unknown,
}

/// The word of `words` at index `at`; the empty text where there is none.
pub open spec fn word(words: Seq<Seq<char>>, at: int) -> Seq<char> {
    if 0 <= at < words.len() {
        words[at]
    } else {
        Seq::empty()
    }
}

/// The command that a message gives: its first word selects it.
pub open spec fn command_of(message: Seq<char>) -> Command {
    let first = word(tokens(message), 0);
    if first == "connect"@ {
        Command::Connect
    } else if first == "help"@ {
        Command::Help
    } else if first == "login"@ {
        Command::Login
    } else if first == "list"@ {
        Command::List
    } else if first == "bridge"@ {
        Command::Bridge
    } else if first == "unbridge"@ {
        Command::Unbridge
    } else {
        Command::Unknown
    }
}

/// The server in whose name the calls of a user are made: the server's address, and the
/// user's id and token there, each empty where the record holds none.
pub open spec fn api_of(server: RocketchatServerView, user: UserOnRocketchatServerView) -> RocketchatApiView {
    RocketchatApiView {
        rocketchat_url: server.rocketchat_url,
        user_id: text_or_empty(user.rocketchat_user_id),
        auth_token: text_or_empty(user.rocketchat_auth_token),
    }
}

/// The text, or the empty text where there is none.
pub open spec fn text_or_empty(text: Option<Seq<char>>) -> Seq<char> {
    match text {
        Some(text) => text,
        None => Seq::empty(),
    }
}

/// The first channel of the given name. A channel that has no name counts as one whose
/// name is empty.
pub open spec fn channel_by_name(channels: Seq<ChannelView>, name: Seq<char>) -> Option<ChannelView> {
    find_first(channels, |channel: ChannelView| text_or_empty(channel.name) == name)
}

/// Why `connect` with a token does not take the server, if it does not: the reasons are,
/// in this order, an id that is missing, an id of the wrong shape, an id that is taken, an
/// address that a server with a token has, a token that is taken.
pub open spec fn connect_refusal(
    store: StoreView,
    rocketchat_server_id: Seq<char>,
    rocketchat_url: Seq<char>,
    token: Seq<char>,
    matrix_user_id: Seq<char>,
) -> Option<ErrorView> {
    if rocketchat_server_id.len() == 0 {
        Some(connect_without_rocketchat_server_id())
    } else if !valid_server_id(rocketchat_server_id) {
        Some(connect_with_invalid_rocketchat_server_id(rocketchat_server_id))
    } else if server_by_id(store.rocketchat_servers, rocketchat_server_id) is Some {
        Some(rocketchat_server_id_already_in_use(rocketchat_server_id))
    } else if server_by_url(store.rocketchat_servers, rocketchat_url) is Some && server_by_url(
        store.rocketchat_servers,
        rocketchat_url,
    )->0.rocketchat_token is Some {
        Some(rocketchat_server_already_connected(rocketchat_url, matrix_user_id))
    } else if server_by_token(store.rocketchat_servers, token) is Some {
        Some(rocketchat_token_already_in_use(token))
    } else {
        None
    }
}

/// The store with the server in it.
pub open spec fn store_with_server(store: StoreView, server: RocketchatServerView) -> StoreView {
    StoreView { rocketchat_servers: inserted(store.rocketchat_servers, server), ..store }
}

/// What [`CommandHandler::connect_new_rocketchat_server`] gives, over the store `store` and
/// the answers `pending`: a server that is not refused is probed, and put into the store
/// once it has answered.
pub open spec fn connect_new_rocketchat_server(
    store: StoreView,
    pending: Seq<ReplyView>,
    rocketchat_server_id: Seq<char>,
    rocketchat_url: Seq<char>,
    token: Seq<char>,
    matrix_user_id: Seq<char>,
) -> Run<RocketchatServerView> {
    match connect_refusal(store, rocketchat_server_id, rocketchat_url, token, matrix_user_id) {
        Some(error) => failed(error, store, pending),
        None => {
            let probed = rocketchat::connected(pending, rocketchat_url);
            match probed.result {
                Err(halt) => halted(halt, store, probed.pending),
                Ok(_) => {
                    let server = RocketchatServerView {
                        id: rocketchat_server_id,
                        rocketchat_url,
                        rocketchat_token: Some(token),
                    };
                    ended(server, store_with_server(store, server), probed.pending)
                },
            }
        },
    }
}

/// What [`CommandHandler::get_existing_rocketchat_server`] gives: the server of the given
/// address, or the error that a token is needed to connect to a server that is not known.
pub open spec fn get_existing_rocketchat_server(store: StoreView, rocketchat_url: Seq<char>) -> Result<
    RocketchatServerView,
    ErrorView,
> {
    match server_by_url(store.rocketchat_servers, rocketchat_url) {
        Some(server) => Ok(server),
        None => Err(rocketchat_token_missing()),
    }
}

/// What [`CommandHandler::get_rocketchat_server`] gives over the answers `pending`: the
/// server that the room is connected to, or the error that it is connected to none.
pub open spec fn get_rocketchat_server(pending: Seq<ReplyView>, store: StoreView, room_id: Seq<char>) -> Step<
    RocketchatServerView,
> {
    let connected = room::rocketchat_server_for_admin_room(pending, store, room_id);
    match connected.result {
        Err(halt) => stop(halt, connected.pending),
        Ok(None) => fail(room_not_connected(room_id), connected.pending),
        Ok(Some(server)) => give(server, connected.pending),
    }
}

/// The record of a user who has connected a room to a server and has not logged in.
pub open spec fn connected_user(matrix_user_id: Seq<char>, rocketchat_server_id: Seq<char>) -> UserOnRocketchatServerView {
    UserOnRocketchatServerView {
        is_virtual_user: false,
        matrix_user_id,
        rocketchat_server_id,
        rocketchat_user_id: None,
        rocketchat_auth_token: None,
        rocketchat_username: None,
    }
}

/// The server that `connect` connects the room to: with a token the server of the command,
/// once it is taken and has answered; without one the server of that address that the
/// store holds.
pub open spec fn server_to_connect(
    store: StoreView,
    pending: Seq<ReplyView>,
    words: Seq<Seq<char>>,
    matrix_user_id: Seq<char>,
) -> Run<RocketchatServerView> {
    if words.len() > 2 {
        connect_new_rocketchat_server(
            store,
            pending,
            word(words, 3),
            word(words, 1),
            words[2],
            matrix_user_id,
        )
    } else {
        match get_existing_rocketchat_server(store, word(words, 1)) {
            Ok(server) => ended(server, store, pending),
            Err(error) => failed(error, store, pending),
        }
    }
}

/// The help of a room, sent into it in the bot's name.
pub open spec fn help(pending: Seq<ReplyView>, store: StoreView, config: ConfigView, event: MessageEventView) -> Step<
    (),
> {
    let built = build_help_message(pending, store, config.as_url, event.room_id, event.user_id);
    match built.result {
        Err(halt) => stop(halt, built.pending),
        Ok(body) => match checked_bot_user_id(config) {
            Err(error) => fail(error, built.pending),
            Ok(bot_id) => matrix::send_text_message_event(
                built.pending,
                event.room_id,
                bot_id,
                BodyView::Localized(body),
            ),
        },
    }
}

/// What [`CommandHandler::connect`] gives, over the store `store` and the answers
/// `pending`. A run that stops before its end leaves the store as it was: neither the
/// server nor the user's record is kept.
pub open spec fn connect(
    store: StoreView,
    pending: Seq<ReplyView>,
    config: ConfigView,
    event: MessageEventView,
    message: Seq<char>,
) -> Run<()> {
    let connected = room::rocketchat_server_for_admin_room(pending, store, event.room_id);
    match connected.result {
        Err(halt) => halted(halt, store, connected.pending),
        Ok(Some(_)) => failed(room_already_connected(event.room_id), store, connected.pending),
        Ok(None) => {
            let found = server_to_connect(store, connected.pending, tokens(message), event.user_id);
            match found.result {
                Err(halt) => halted(halt, store, found.pending),
                Ok(server) => {
                    let stored = store_with_user(
                        found.store,
                        connected_user(event.user_id, server.id),
                    );
                    let topic = matrix::set_room_topic(
                        found.pending,
                        event.room_id,
                        word(tokens(message), 1),
                    );
                    match topic.result {
                        Err(halt) => halted(halt, store, topic.pending),
                        Ok(_) => undone(
                            store,
                            with_store(help(topic.pending, stored, config, event), stored),
                        ),
                    }
                },
            }
        },
    }
}

/// `connect` connects. After a `connect` that went through, the store holds a server of
/// the address that the command named, the topic of the room is to be that address, and a
/// room with that topic is connected to the server: its user has a record there and is not
/// logged in.
pub proof fn lemma_connect_connects(
    store: StoreView,
    pending: Seq<ReplyView>,
    config: ConfigView,
    event: MessageEventView,
    message: Seq<char>,
)
    requires
        connect(store, pending, config, event, message).result is Ok,
    ensures
        server_by_url(
            connect(store, pending, config, event, message).store.rocketchat_servers,
            word(tokens(message), 1),
        ) is Some,
        admin_room_state(
            connect(store, pending, config, event, message).store,
            server_by_url(
                connect(store, pending, config, event, message).store.rocketchat_servers,
                word(tokens(message), 1),
            ),
            event.user_id,
        ) == AdminRoomStateView::Connected(
            server_by_url(
                connect(store, pending, config, event, message).store.rocketchat_servers,
                word(tokens(message), 1),
            )->0,
        ),
{
    let connected = room::rocketchat_server_for_admin_room(pending, store, event.room_id);
    let found = server_to_connect(store, connected.pending, tokens(message), event.user_id);
    let server = found.result->Ok_0;
    if tokens(message).len() > 2 {
        lemma_inserted_is_found(store.rocketchat_servers, server);
    }
    lemma_upsert_idempotent(
        found.store.users_on_rocketchat_servers,
        connected_user(event.user_id, server.id),
    );
}

/// `login` logs in. After a `login` that went through, the room of the server is one whose
/// user is logged in.
pub proof fn lemma_login_logs_in(
    store: StoreView,
    pending: Seq<ReplyView>,
    config: ConfigView,
    event: MessageEventView,
    server: RocketchatServerView,
    message: Seq<char>,
)
    requires
        login(store, pending, config, event, server, message).result is Ok,
    ensures
        admin_room_state(
            login(store, pending, config, event, server, message).store,
            Some(server),
            event.user_id,
        ) is LoggedIn,
{
    let known = user_on_server(store.users_on_rocketchat_servers, event.user_id, server.id)->0;
    crate::seqs::lemma_first_match_is_first(
        store.users_on_rocketchat_servers,
        |r: UserOnRocketchatServerView|
            r.matrix_user_id == event.user_id && r.rocketchat_server_id == server.id,
        0,
    );
    let probed = rocketchat::connected(pending, server.rocketchat_url);
    let asked = rocketchat::logged_in(
        probed.pending,
        probed.result->Ok_0,
        word(tokens(message), 1),
        concat_from(tokens(message), 2),
    );
    let row = login::with_credentials(
        known,
        word(tokens(message), 1),
        asked.result->Ok_0.0,
        asked.result->Ok_0.1,
    );
    lemma_upsert_idempotent(store.users_on_rocketchat_servers, row);
}

/// What `connect` with a token writes. After a `connect` that went through, the store
/// holds the server of the command in the table of servers, and the record of the user on
/// that server: not virtual, with no id, no token and no name there, so not logged in. It
/// is the one record of the user on the server; for a user who had none it is the one
/// record that was added. Nothing else is written.
pub proof fn lemma_connect_records_the_user(
    store: StoreView,
    pending: Seq<ReplyView>,
    config: ConfigView,
    event: MessageEventView,
    message: Seq<char>,
)
    requires
        tokens(message).len() > 2,
        connect(store, pending, config, event, message).result is Ok,
    ensures
        ({
            let after = connect(store, pending, config, event, message).store;
            let server = RocketchatServerView {
                id: word(tokens(message), 3),
                rocketchat_url: word(tokens(message), 1),
                rocketchat_token: Some(tokens(message)[2]),
            };
            let row = connected_user(event.user_id, server.id);
            &&& after.rocketchat_servers == inserted(store.rocketchat_servers, server)
            &&& after.users == store.users
            &&& after.users_on_rocketchat_servers == upserted(store.users_on_rocketchat_servers, row)
            &&& user_on_server(after.users_on_rocketchat_servers, event.user_id, server.id) == Some(row)
            &&& !row.is_virtual_user && !logged_in(row)
            &&& users_on_servers_well_formed(store.users_on_rocketchat_servers)
                ==> users_on_servers_well_formed(after.users_on_rocketchat_servers)
            &&& user_on_server(store.users_on_rocketchat_servers, event.user_id, server.id) is None
                ==> after.users_on_rocketchat_servers == store.users_on_rocketchat_servers.push(row)
        }),
{
    let row = connected_user(event.user_id, word(tokens(message), 3));
    lemma_upsert_idempotent(store.users_on_rocketchat_servers, row);
    lemma_upsert_adds_at_most_one(store.users_on_rocketchat_servers, row);
    if users_on_servers_well_formed(store.users_on_rocketchat_servers) {
        lemma_upserted_well_formed(store.users_on_rocketchat_servers, row);
    }
}

/// What `connect` says. The room is connected to no server, the server of the command is
/// taken and answers, and the address is set as the topic of the room. The one call that
/// the bridge then asks for, once it has read the topic for the help, sends the help into
/// the room in the bot's name: how to log in on the server of that address.
pub proof fn lemma_connect_sends_the_login_instructions(
    store: StoreView,
    config: ConfigView,
    event: MessageEventView,
    message: Seq<char>,
)
    requires
        usable(config),
        tokens(message).len() > 2,
        connect_refusal(
            store,
            word(tokens(message), 3),
            word(tokens(message), 1),
            tokens(message)[2],
            event.user_id,
        ) is None,
    ensures
        connect(
            store,
            seq![
                ReplyView::Done,
                ReplyView::Done,
                ReplyView::Done,
                ReplyView::Text(word(tokens(message), 1)),
            ],
            config,
            event,
            message,
        ).result == Err::<(), HaltView>(
            HaltView::Ask(
                RequestView::SendTextMessageEvent {
                    room_id: event.room_id,
                    sender_id: bot_user_id(config),
                    body: BodyView::Localized(
                        login_instructions(word(tokens(message), 1), config.as_url, event.user_id),
                    ),
                },
            ),
        ),
{
    let url = word(tokens(message), 1);
    let answers = seq![
        ReplyView::Done,
        ReplyView::Done,
        ReplyView::Done,
        ReplyView::Text(url),
    ];
    let one = rest(answers);
    let two = rest(one);
    let three = rest(two);
    let four = rest(three);
    assert(one =~= seq![ReplyView::Done, ReplyView::Done, ReplyView::Text(url)]);
    assert(two =~= seq![ReplyView::Done, ReplyView::Text(url)]);
    assert(three =~= seq![ReplyView::Text(url)]);
    assert(four =~= Seq::empty());
    let server = RocketchatServerView {
        id: word(tokens(message), 3),
        rocketchat_url: url,
        rocketchat_token: Some(tokens(message)[2]),
    };
    let row = connected_user(event.user_id, server.id);
    lemma_inserted_is_found(store.rocketchat_servers, server);
    lemma_upsert_idempotent(store.users_on_rocketchat_servers, row);
}

/// `connect` without a token, to a server that the user is connected to already, changes
/// nothing in the store: the record of the user that is written is the one that is there.
pub proof fn lemma_connect_again_changes_nothing(
    store: StoreView,
    pending: Seq<ReplyView>,
    config: ConfigView,
    event: MessageEventView,
    message: Seq<char>,
    server: RocketchatServerView,
)
    requires
        tokens(message).len() <= 2,
        server_by_url(store.rocketchat_servers, word(tokens(message), 1)) == Some(server),
        user_on_server(store.users_on_rocketchat_servers, event.user_id, server.id) == Some(
            connected_user(event.user_id, server.id),
        ),
    ensures
        connect(store, pending, config, event, message).store == store,
{
    lemma_upsert_adds_at_most_one(
        store.users_on_rocketchat_servers,
        connected_user(event.user_id, server.id),
    );
}

/// What `login` writes and says. The user has the record `known` on the server. Where the
/// server answers and gives the user's id and token, the one call that the bridge then
/// asks for sends the message that the user is logged in, into the room and in the bot's
/// name. Once that is sent, the record of the user holds the id, the token and the name,
/// and is otherwise as it was; no record was added. Where the server refuses the login,
/// `login` fails and the store is as it was.
pub proof fn lemma_login_records_the_credentials(
    store: StoreView,
    config: ConfigView,
    event: MessageEventView,
    server: RocketchatServerView,
    message: Seq<char>,
    known: UserOnRocketchatServerView,
    rocketchat_user_id: Seq<char>,
    rocketchat_auth_token: Seq<char>,
    cause: Seq<char>,
)
    requires
        usable(config),
        user_on_server(store.users_on_rocketchat_servers, event.user_id, server.id) == Some(known),
    ensures
        login(
            store,
            seq![ReplyView::Done, ReplyView::Credentials(rocketchat_user_id, rocketchat_auth_token)],
            config,
            event,
            server,
            message,
        ).result == Err::<(), HaltView>(
            HaltView::Ask(
                RequestView::SendTextMessageEvent {
                    room_id: event.room_id,
                    sender_id: bot_user_id(config),
                    body: BodyView::Localized(login::login_successful(server.rocketchat_url)),
                },
            ),
        ),
        ({
            let row = login::with_credentials(
                known,
                word(tokens(message), 1),
                rocketchat_user_id,
                rocketchat_auth_token,
            );
            let after = login(
                store,
                seq![
                    ReplyView::Done,
                    ReplyView::Credentials(rocketchat_user_id, rocketchat_auth_token),
                    ReplyView::Done,
                ],
                config,
                event,
                server,
                message,
            );
            &&& after == ended((), store_with_user(store, row), Seq::empty())
            &&& user_on_server(after.store.users_on_rocketchat_servers, event.user_id, server.id)
                == Some(row)
            &&& logged_in(row) && row.is_virtual_user == known.is_virtual_user
            &&& after.store.users_on_rocketchat_servers.len()
                == store.users_on_rocketchat_servers.len()
        }),
        login(
            store,
            seq![ReplyView::Done, ReplyView::Failed(cause)],
            config,
            event,
            server,
            message,
        ).result is Err,
        login(
            store,
            seq![ReplyView::Done, ReplyView::Failed(cause)],
            config,
            event,
            server,
            message,
        ).store == store,
{
    let given = ReplyView::Credentials(rocketchat_user_id, rocketchat_auth_token);
    let two = seq![ReplyView::Done, given];
    let three = seq![ReplyView::Done, given, ReplyView::Done];
    let refused = seq![ReplyView::Done, ReplyView::Failed(cause)];
    assert(rest(two) =~= seq![given]);
    assert(rest(rest(two)) =~= Seq::empty());
    assert(rest(three) =~= seq![given, ReplyView::Done]);
    assert(rest(rest(three)) =~= seq![ReplyView::Done]);
    assert(rest(rest(rest(three))) =~= Seq::empty());
    assert(rest(refused) =~= seq![ReplyView::Failed(cause)]);
    lemma_first_match_is_first(
        store.users_on_rocketchat_servers,
        |r: UserOnRocketchatServerView|
            r.matrix_user_id == event.user_id && r.rocketchat_server_id == server.id,
        0,
    );
    let row = login::with_credentials(
        known,
        word(tokens(message), 1),
        rocketchat_user_id,
        rocketchat_auth_token,
    );
    lemma_upsert_idempotent(store.users_on_rocketchat_servers, row);
    lemma_upsert_adds_at_most_one(store.users_on_rocketchat_servers, row);
}

/// What the command `login` logs in with: the second word of the message is the name, the
/// words from the third on, one after the other with nothing between, are the password.
pub open spec fn credentials_of(event: MessageEventView, server: RocketchatServerView, message: Seq<char>) -> CredentialsView {
    CredentialsView {
        matrix_user_id: event.user_id,
        rocketchat_username: word(tokens(message), 1),
        password: concat_from(tokens(message), 2),
        rocketchat_url: server.rocketchat_url,
    }
}

/// What [`CommandHandler::login`] gives, over the store `store` and the answers `pending`.
pub open spec fn login(
    store: StoreView,
    pending: Seq<ReplyView>,
    config: ConfigView,
    event: MessageEventView,
    server: RocketchatServerView,
    message: Seq<char>,
) -> Run<()> {
    login::call(
        store,
        pending,
        config,
        credentials_of(event, server, message),
        server,
        Some(event.room_id),
    )
}

/// What marks a channel in the list of channels: two asterisks where the channel is
/// bridged for the user, one where the user is in the channel, nothing else.
pub open spec fn channel_marker(channel: ChannelView, bridged: bool, username: Option<Seq<char>>) -> Seq<
    char,
> {
    if bridged {
        "**"@
    } else if username is Some && channel.usernames.contains(username->0) {
        "*"@
    } else {
        Seq::empty()
    }
}

/// The paragraph of a channel in the list of channels: an asterisk and three spaces, then
/// the name under which the channel is shown between its markers, then two line feeds.
pub open spec fn channel_line(channel: ChannelView, bridged: bool, username: Option<Seq<char>>) -> Seq<
    char,
> {
    "*   "@ + channel_marker(channel, bridged, username) + display_name(channel) + channel_marker(
        channel,
        bridged,
        username,
    ) + "\n\n"@
}

/// The list of the channels from index `from` on, after `listed`.
pub open spec fn channel_lines_from(
    pending: Seq<ReplyView>,
    config: ConfigView,
    rocketchat_server_id: Seq<char>,
    matrix_user_id: Seq<char>,
    username: Option<Seq<char>>,
    channels: Seq<ChannelView>,
    from: int,
    listed: Seq<char>,
) -> Step<Seq<char>>
    decreases channels.len() - from,
{
    if from < 0 || from >= channels.len() {
        give(listed, pending)
    } else {
        let bridged = room::is_bridged_for_user(
            pending,
            config,
            rocketchat_server_id,
            channels[from].id,
            matrix_user_id,
        );
        match bridged.result {
            Err(halt) => stop(halt, bridged.pending),
            Ok(is_bridged) => channel_lines_from(
                bridged.pending,
                config,
                rocketchat_server_id,
                matrix_user_id,
                username,
                channels,
                from + 1,
                listed + channel_line(channels[from], is_bridged, username),
            ),
        }
    }
}

/// What [`CommandHandler::build_channels_list`] gives over the answers `pending`.
pub open spec fn build_channels_list(
    pending: Seq<ReplyView>,
    store: StoreView,
    config: ConfigView,
    rocketchat_server_id: Seq<char>,
    matrix_user_id: Seq<char>,
    channels: Seq<ChannelView>,
) -> Step<Seq<char>> {
    match user_on_server(store.users_on_rocketchat_servers, matrix_user_id, rocketchat_server_id) {
        None => fail(
            user_on_rocketchat_server_not_found(matrix_user_id, rocketchat_server_id),
            pending,
        ),
        Some(user) => channel_lines_from(
            pending,
            config,
            rocketchat_server_id,
            matrix_user_id,
            user.rocketchat_username,
            channels,
            0,
            Seq::empty(),
        ),
    }
}

/// The message that lists the channels.
pub open spec fn list_of_channels(channel_list: Seq<char>) -> MessageView {
    MessageView {
        key: MessageKey::ListChannels,
        vars: seq![(VarName::ChannelList, VarValueView::Text(channel_list))],
    }
}

/// The channels of a server, as the user sees them who gave a command, with the record of
/// that user and the server as it is called in the user's name: the user's record is
/// read, the server is probed and asked for its channels in the user's name.
pub open spec fn channels_for(
    pending: Seq<ReplyView>,
    store: StoreView,
    matrix_user_id: Seq<char>,
    server: RocketchatServerView,
) -> Step<(UserOnRocketchatServerView, Seq<ChannelView>, RocketchatApiView)> {
    match user_on_server(store.users_on_rocketchat_servers, matrix_user_id, server.id) {
        None => fail(user_on_rocketchat_server_not_found(matrix_user_id, server.id), pending),
        Some(user) => {
            let probed = rocketchat::connected(pending, server.rocketchat_url);
            match probed.result {
                Err(halt) => stop(halt, probed.pending),
                Ok(_) => {
                    let listed = rocketchat::channels_list(probed.pending, api_of(server, user));
                    match listed.result {
                        Err(halt) => stop(halt, listed.pending),
                        Ok(channels) => give(
                            (user, channels, api_of(server, user)),
                            listed.pending,
                        ),
                    }
                },
            }
        },
    }
}

/// What [`CommandHandler::list_channels`] gives over the answers `pending`.
pub open spec fn list_channels(
    pending: Seq<ReplyView>,
    store: StoreView,
    config: ConfigView,
    event: MessageEventView,
    server: RocketchatServerView,
) -> Step<()> {
    let asked = channels_for(pending, store, event.user_id, server);
    match asked.result {
        Err(halt) => stop(halt, asked.pending),
        Ok((_, channels, _)) => match checked_bot_user_id(config) {
            Err(error) => fail(error, asked.pending),
            Ok(bot_id) => {
                let list = build_channels_list(
                    asked.pending,
                    store,
                    config,
                    server.id,
                    event.user_id,
                    channels,
                );
                match list.result {
                    Err(halt) => stop(halt, list.pending),
                    Ok(channel_list) => matrix::send_text_message_event(
                        list.pending,
                        event.room_id,
                        bot_id,
                        BodyView::Localized(list_of_channels(channel_list)),
                    ),
                }
            },
        }
    }
}

/// The message that a channel was bridged.
pub open spec fn room_successfully_bridged(channel_name: Seq<char>) -> MessageView {
    MessageView {
        key: MessageKey::RoomSuccessfullyBridged,
        vars: seq![(VarName::ChannelName, VarValueView::Text(channel_name))],
    }
}

/// The message that a channel was unbridged.
pub open spec fn room_successfully_unbridged(channel_name: Seq<char>) -> MessageView {
    MessageView {
        key: MessageKey::RoomSuccessfullyUnbridged,
        vars: seq![(VarName::ChannelName, VarValueView::Text(channel_name))],
    }
}

/// The room of a channel that is being bridged for a user: the room that the channel has,
/// into which the user is invited, or a new one.
pub open spec fn bridged_room(
    store: StoreView,
    pending: Seq<ReplyView>,
    config: ConfigView,
    event: MessageEventView,
    server: RocketchatServerView,
    user: UserOnRocketchatServerView,
    channel: ChannelView,
    channel_name: Seq<char>,
    bot_id: Seq<char>,
) -> Run<Seq<char>> {
    let resolved = room::matrix_id_from_rocketchat_channel_id(pending, config, server.id, channel.id);
    match resolved.result {
        Err(halt) => halted(halt, store, resolved.pending),
        Ok(Some(room_id)) => {
            let invited = room_handler::bridge_existing_room(
                resolved.pending,
                config,
                room_id,
                event.user_id,
                channel_name,
            );
            match invited.result {
                Err(halt) => halted(halt, store, invited.pending),
                Ok(_) => ended(room_id, store, invited.pending),
            }
        },
        Ok(None) => room_handler::bridge_new_room(
            store,
            resolved.pending,
            config,
            api_of(server, user),
            server.id,
            channel,
            bot_id,
            event.user_id,
        ),
    }
}

/// What [`CommandHandler::bridge`] gives, over the store `store` and the answers `pending`.
/// A run that stops before its end leaves the store as it was: no virtual user that was
/// recorded on the way is kept.
pub open spec fn bridge(
    store: StoreView,
    pending: Seq<ReplyView>,
    config: ConfigView,
    event: MessageEventView,
    server: RocketchatServerView,
    message: Seq<char>,
) -> Run<()> {
    let channel_name = word(tokens(message), 1);
    match checked_bot_user_id(config) {
        Err(error) => failed(error, store, pending),
        Ok(bot_id) => {
            let asked = channels_for(pending, store, event.user_id, server);
            match asked.result {
                Err(halt) => halted(halt, store, asked.pending),
                Ok((user, channels, _)) => match channel_by_name(channels, channel_name) {
                    None => failed(rocketchat_channel_not_found(channel_name), store, asked.pending),
                    Some(channel) => if !channel.usernames.contains(
                        text_or_empty(user.rocketchat_username),
                    ) {
                        failed(rocketchat_join_first(channel_name), store, asked.pending)
                    } else {
                        let bridged = bridged_room(
                            store,
                            asked.pending,
                            config,
                            event,
                            server,
                            user,
                            channel,
                            channel_name,
                            bot_id,
                        );
                        match bridged.result {
                            Err(halt) => halted(halt, store, bridged.pending),
                            Ok(room_id) => {
                                let aliased = matrix::put_canonical_room_alias(
                                    bridged.pending,
                                    room_id,
                                    Some(room_alias_id(config, server.id, channel.id)),
                                );
                                match aliased.result {
                                    Err(halt) => halted(halt, store, aliased.pending),
                                    Ok(_) => undone(
                                        store,
                                        with_store(
                                            matrix::send_text_message_event(
                                                aliased.pending,
                                                event.room_id,
                                                bot_id,
                                                BodyView::Localized(
                                                    room_successfully_bridged(display_name(channel)),
                                                ),
                                            ),
                                            bridged.store,
                                        ),
                                    ),
                                }
                            },
                        }
                    },
                },
            }
        },
    }
}

/// The end of `unbridge`, for a room that only the bot and virtual users are in: the
/// canonical alias of the admin room is cleared, the alias of the channel is deleted, and
/// the bot says that the channel was unbridged.
pub open spec fn unbridge_room(
    pending: Seq<ReplyView>,
    config: ConfigView,
    event: MessageEventView,
    server: RocketchatServerView,
    channel: ChannelView,
    channel_name: Seq<char>,
) -> Step<()> {
    let cleared = matrix::put_canonical_room_alias(pending, event.room_id, None);
    match cleared.result {
        Err(halt) => stop(halt, cleared.pending),
        Ok(_) => {
            let deleted = matrix::delete_room_alias(
                cleared.pending,
                room_alias_id(config, server.id, channel.id),
            );
            match deleted.result {
                Err(halt) => stop(halt, deleted.pending),
                Ok(_) => match checked_bot_user_id(config) {
                    Err(error) => fail(error, deleted.pending),
                    Ok(bot_id) => matrix::send_text_message_event(
                        deleted.pending,
                        event.room_id,
                        bot_id,
                        BodyView::Localized(room_successfully_unbridged(channel_name)),
                    ),
                },
            }
        },
    }
}

/// What [`CommandHandler::unbridge`] gives over the answers `pending`.
pub open spec fn unbridge(
    pending: Seq<ReplyView>,
    store: StoreView,
    config: ConfigView,
    event: MessageEventView,
    server: RocketchatServerView,
    message: Seq<char>,
) -> Step<()> {
    let channel_name = word(tokens(message), 1);
    let asked = channels_for(pending, store, event.user_id, server);
    match asked.result {
        Err(halt) => stop(halt, asked.pending),
        Ok((_, channels, _)) => match channel_by_name(channels, channel_name) {
            None => fail(unbridge_of_not_bridged_room(channel_name), asked.pending),
            Some(channel) => {
                let resolved = room::matrix_id_from_rocketchat_channel_id(
                    asked.pending,
                    config,
                    server.id,
                    channel.id,
                );
                match resolved.result {
                    Err(halt) => stop(halt, resolved.pending),
                    Ok(None) => fail(unbridge_of_not_bridged_room(channel_name), resolved.pending),
                    Ok(Some(room_id)) => {
                        let counted = matrix::get_room_members(resolved.pending, room_id);
                        match counted.result {
                            Err(halt) => stop(halt, counted.pending),
                            Ok(members) => if other_users(config, members).len() > 0 {
                                fail(
                                    room_not_empty(
                                        channel_name,
                                        joined(other_users(config, members), ", "@),
                                    ),
                                    counted.pending,
                                )
                            } else {
                                unbridge_room(
                                    counted.pending,
                                    config,
                                    event,
                                    server,
                                    channel,
                                    channel_name,
                                )
                            },
                        }
                    },
                }
            },
        },
    }
}

/// What a command gives that needs the server of the room, over the store `store` and the
/// answers `pending`.
pub open spec fn command_on_server(
    store: StoreView,
    pending: Seq<ReplyView>,
    config: ConfigView,
    event: MessageEventView,
    room_id: Seq<char>,
    message: Seq<char>,
    command: Command,
) -> Run<()> {
    let found = get_rocketchat_server(pending, store, room_id);
    match found.result {
        Err(halt) => halted(halt, store, found.pending),
        Ok(server) => match command {
            Command::Login => login(store, found.pending, config, event, server, message),
            Command::List => with_store(
                list_channels(found.pending, store, config, event, server),
                store,
            ),
            Command::Bridge => bridge(store, found.pending, config, event, server, message),
            Command::Unbridge => with_store(
                unbridge(found.pending, store, config, event, server, message),
                store,
            ),
            _ => ended((), store, found.pending),
        },
    }
}

/// What [`CommandHandler::process`] gives, over the store `store` and the answers
/// `pending`.
pub open spec fn process(
    store: StoreView,
    pending: Seq<ReplyView>,
    config: ConfigView,
    event: MessageEventView,
    room_id: Seq<char>,
) -> Run<()> {
    match event.content {
        MessageContentView::Other => ended((), store, pending),
        MessageContentView::Text(message) => match command_of(message) {
            Command::Connect => connect(store, pending, config, event, message),
            Command::Help => with_store(help(pending, store, config, event), store),
            Command::Unknown => ended((), store, pending),
            command => command_on_server(store, pending, config, event, room_id, message, command),
        },
    }
}

/// A command is a transaction. A command that stops before its end, for want of an answer
/// or with an error, leaves the store as it was: whatever it has written on its way is
/// given up.
pub proof fn lemma_failed_command_writes_nothing(
    store: StoreView,
    pending: Seq<ReplyView>,
    config: ConfigView,
    event: MessageEventView,
    room_id: Seq<char>,
)
    ensures
        process(store, pending, config, event, room_id).result is Err ==> process(
            store,
            pending,
            config,
            event,
            room_id,
        ).store == store,
{
}

/// Takes the commands that users give in admin rooms.
#[derive(Debug, PartialEq, Eq)]
pub struct CommandHandler<'a> {
    /// The configuration of the application service.
    pub config: &'a Config,
}

impl<'a> CommandHandler<'a> {
    /// A handler of commands.
    pub fn new(config: &'a Config) -> (handler: CommandHandler<'a>)
        ensures
            handler.config == config,
    {
        CommandHandler { config }
    }

    /// The command that a message gives.
    pub fn command(message: &str) -> (command: Command)
        ensures
            command == command_of(message@),
    {
        let words = split_whitespace(message);
        let first = CommandHandler::word_at(&words, 0);
        if first == text("connect") {
            Command::Connect
        } else if first == text("help") {
            Command::Help
        } else if first == text("login") {
            Command::Login
        } else if first == text("list") {
            Command::List
        } else if first == text("bridge") {
            Command::Bridge
        } else if first == text("unbridge") {
            Command::Unbridge
        } else {
            Command::Unknown
        }
    }

    /// The word at index `at`; the empty text where there is none.
    pub fn word_at(words: &Vec<String>, at: usize) -> (found: String)
        ensures
            found@ == word(words.deep_view(), at as int),
    {
        if at < words.len() {
            words[at].clone()
        } else {
            String::new()
        }
    }

    /// The text, or the empty text where there is none.
    pub fn text_or_empty(value: &Option<String>) -> (found: String)
        ensures
            found@ == text_or_empty(value.deep_view()),
    {
        match value {
            Some(value) => value.clone(),
            None => String::new(),
        }
    }

    /// The first channel of the given name.
    pub fn channel_by_name(channels: &Vec<Channel>, name: &str) -> (found: Option<Channel>)
        ensures
            found.deep_view() == channel_by_name(channels.deep_view(), name@),
    {
        let wanted = text(name);
        let ghost pred = |channel: ChannelView| text_or_empty(channel.name) == name@;
        let mut i: usize = 0;
        while i < channels.len()
            invariant
                i <= channels.len(),
                wanted@ == name@,
                pred == |channel: ChannelView| text_or_empty(channel.name) == name@,
                forall|j: int| 0 <= j < i ==> !pred(#[trigger] channels.deep_view()[j]),
            decreases channels.len() - i,
        {
            if CommandHandler::text_or_empty(&channels[i].name) == wanted {
                proof {
                    lemma_first_match(channels.deep_view(), pred, i as int);
                }
                return Some(channels[i].clone());
            }
            i = i + 1;
        }
        proof {
            lemma_first_match(channels.deep_view(), pred, i as int);
        }
        None
    }

    /// Why `connect` with a token does not take the server, if it does not.
    pub fn connect_refusal(
        store: &Store,
        rocketchat_server_id: &str,
        rocketchat_url: &str,
        token: &str,
        matrix_user_id: &str,
    ) -> (refusal: Option<Error>)
        ensures
            refusal.deep_view() == connect_refusal(
                store.deep_view(),
                rocketchat_server_id@,
                rocketchat_url@,
                token@,
                matrix_user_id@,
            ),
    {
        if rocketchat_server_id.unicode_len() == 0 {
            return Some(Error::connect_without_rocketchat_server_id());
        }
        if !RocketchatServer::is_valid_id(rocketchat_server_id) {
            return Some(Error::connect_with_invalid_rocketchat_server_id(text(rocketchat_server_id)));
        }
        if RocketchatServer::find_by_id(store, rocketchat_server_id).is_some() {
            return Some(Error::rocketchat_server_id_already_in_use(text(rocketchat_server_id)));
        }
        match RocketchatServer::find_by_url(store, rocketchat_url) {
            Some(known) => {
                if known.rocketchat_token.is_some() {
                    return Some(
                        Error::rocketchat_server_already_connected(
                            text(rocketchat_url),
                            text(matrix_user_id),
                        ),
                    );
                }
            },
            None => {},
        }
        if RocketchatServer::find_by_token(store, token).is_some() {
            return Some(Error::rocketchat_token_already_in_use(text(token)));
        }
        None
    }

    /// Connects a server that is new to the bridge, or one that had no token: the server
    /// is checked against the store, probed and put into the store.
    pub fn connect_new_rocketchat_server(
        &self,
        store: &mut Store,
        calls: &mut Transcript,
        rocketchat_server_id: String,
        rocketchat_url: String,
        token: String,
        matrix_user_id: &str,
    ) -> (result: Result<RocketchatServer, Halt>)
        requires
            old(store).wf(),
        ensures
            final(store).wf(),
            ran(result, final(store).deep_view(), final(calls).pending())
                == connect_new_rocketchat_server(
                old(store).deep_view(),
                old(calls).pending(),
                rocketchat_server_id@,
                rocketchat_url@,
                token@,
                matrix_user_id@,
            ),
            result is Err ==> final(store).deep_view() == old(store).deep_view(),
    {
        match CommandHandler::connect_refusal(
            store,
            rocketchat_server_id.as_str(),
            rocketchat_url.as_str(),
            token.as_str(),
            matrix_user_id,
        ) {
            Some(error) => return Err(Halt::Fail(error)),
            None => {},
        }
        match RocketchatApi::new(calls, rocketchat_url.clone()) {
            Ok(_) => {},
            Err(halt) => return Err(halt),
        }
        let new_rocketchat_server = RocketchatServer {
            id: rocketchat_server_id,
            rocketchat_url,
            rocketchat_token: Some(token),
        };
        match RocketchatServer::insert(store, new_rocketchat_server) {
            Ok(server) => Ok(server),
            Err(error) => Err(Halt::Fail(error)),
        }
    }

    /// The server of the given address, or the error that a token is needed to connect to
    /// a server that is not known.
    pub fn get_existing_rocketchat_server(store: &Store, rocketchat_url: &str) -> (found: Result<
        RocketchatServer,
        Error,
    >)
        ensures
            checked(found) == get_existing_rocketchat_server(store.deep_view(), rocketchat_url@),
    {
        match RocketchatServer::find_by_url(store, rocketchat_url) {
            Some(server) => Ok(server),
            None => Err(Error::rocketchat_token_missing()),
        }
    }

    /// The server that the room is connected to, or the error that it is connected to none.
    pub fn get_rocketchat_server(store: &Store, calls: &mut Transcript, matrix_room_id: &str) -> (result:
        Result<RocketchatServer, Halt>)
        ensures
            reached(result, final(calls).pending()) == get_rocketchat_server(
                old(calls).pending(),
                store.deep_view(),
                matrix_room_id@,
            ),
    {
        match Room::rocketchat_server_for_admin_room(store, calls, matrix_room_id) {
            Ok(Some(server)) => Ok(server),
            Ok(None) => Err(Halt::Fail(Error::room_not_connected(text(matrix_room_id)))),
            Err(halt) => Err(halt),
        }
    }

    /// Sends the help of the room into it.
    pub fn help(&self, store: &Store, calls: &mut Transcript, event: &MessageEvent) -> (result: Result<
        (),
        Halt,
    >)
        ensures
            reached(result, final(calls).pending()) == help(
                old(calls).pending(),
                store.deep_view(),
                self.config.deep_view(),
                event.deep_view(),
            ),
    {
        let body = match CommandHandler::build_help_message(
            store,
            calls,
            self.config.as_url.clone(),
            event.room_id.as_str(),
            event.user_id.as_str(),
        ) {
            Ok(body) => body,
            Err(halt) => return Err(halt),
        };
        let bot_id = match self.config.matrix_bot_user_id() {
            Ok(bot_id) => bot_id,
            Err(error) => return Err(Halt::Fail(error)),
        };
        MatrixApi::send_text_message_event(
            calls,
            event.room_id.as_str(),
            bot_id.as_str(),
            Body::Localized(body),
        )
    }

    /// Connects the room to a Rocket.Chat server: `connect`, the address of the server
    /// and, for a server that is new to the bridge, its token and the id that it is to
    /// have. The user gets a record on the server, the address becomes the topic of the
    /// room, and the help is sent.
    pub fn connect(&self, store: &mut Store, calls: &mut Transcript, event: &MessageEvent, message: &str) -> (result:
        Result<(), Halt>)
        requires
            old(store).wf(),
        ensures
            final(store).wf(),
            ran(result, final(store).deep_view(), final(calls).pending()) == connect(
                old(store).deep_view(),
                old(calls).pending(),
                self.config.deep_view(),
                event.deep_view(),
                message@,
            ),
            result is Err ==> final(store).deep_view() == old(store).deep_view(),
    {
        let snapshot = store.clone();
        match Room::rocketchat_server_for_admin_room(store, calls, event.room_id.as_str()) {
            Ok(None) => {},
            Ok(Some(_)) => {
                return Err(Halt::Fail(Error::room_already_connected(event.room_id.clone())));
            },
            Err(halt) => return Err(halt),
        }
        let words = split_whitespace(message);
        let rocketchat_url = CommandHandler::word_at(&words, 1);
        let rocketchat_server = if words.len() > 2 {
            let rocketchat_id = CommandHandler::word_at(&words, 3);
            match self.connect_new_rocketchat_server(
                store,
                calls,
                rocketchat_id,
                rocketchat_url.clone(),
                words[2].clone(),
                event.user_id.as_str(),
            ) {
                Ok(server) => server,
                Err(halt) => return Err(halt),
            }
        } else {
            match CommandHandler::get_existing_rocketchat_server(store, rocketchat_url.as_str()) {
                Ok(server) => server,
                Err(error) => return Err(Halt::Fail(error)),
            }
        };
        let new_user_on_rocketchat_server = UserOnRocketchatServer {
            is_virtual_user: false,
            matrix_user_id: event.user_id.clone(),
            rocketchat_server_id: rocketchat_server.id,
            rocketchat_user_id: None,
            rocketchat_auth_token: None,
            rocketchat_username: None,
        };
        UserOnRocketchatServer::upsert(store, &new_user_on_rocketchat_server);
        match MatrixApi::set_room_topic(calls, event.room_id.as_str(), rocketchat_url.as_str()) {
            Ok(()) => {},
            Err(halt) => {
                *store = snapshot;
                return Err(halt);
            },
        }
        match self.help(store, calls, event) {
            Ok(()) => Ok(()),
            Err(halt) => {
                *store = snapshot;
                Err(halt)
            },
        }
    }

    /// Logs the user in on the server: `login`, the user's name and password. The words
    /// of the password are put together with nothing between them.
    pub fn login(
        &self,
        store: &mut Store,
        calls: &mut Transcript,
        event: &MessageEvent,
        rocketchat_server: &RocketchatServer,
        message: &str,
    ) -> (result: Result<(), Halt>)
        requires
            old(store).wf(),
        ensures
            final(store).wf(),
            ran(result, final(store).deep_view(), final(calls).pending()) == login(
                old(store).deep_view(),
                old(calls).pending(),
                self.config.deep_view(),
                event.deep_view(),
                rocketchat_server.deep_view(),
                message@,
            ),
            result is Err ==> final(store).deep_view() == old(store).deep_view(),
    {
        let words = split_whitespace(message);
        let credentials = Credentials {
            matrix_user_id: event.user_id.clone(),
            rocketchat_username: CommandHandler::word_at(&words, 1),
            password: concat_tokens(&words, 2),
            rocketchat_url: rocketchat_server.rocketchat_url.clone(),
        };
        let login = Login { config: self.config };
        login.call(store, calls, &credentials, rocketchat_server, Some(event.room_id.clone()))
    }

    /// The channels of the server, as the user sees them who gave a command, with the
    /// record of that user and the server as it is called in the user's name.
    pub fn channels_for(
        store: &Store,
        calls: &mut Transcript,
        matrix_user_id: &str,
        rocketchat_server: &RocketchatServer,
    ) -> (result: Result<(UserOnRocketchatServer, Vec<Channel>, RocketchatApi), Halt>)
        ensures
            reached(result, final(calls).pending()) == channels_for(
                old(calls).pending(),
                store.deep_view(),
                matrix_user_id@,
                rocketchat_server.deep_view(),
            ),
    {
        let user = match UserOnRocketchatServer::find(
            store,
            matrix_user_id,
            rocketchat_server.id.as_str(),
        ) {
            Ok(user) => user,
            Err(error) => return Err(Halt::Fail(error)),
        };
        let api = match RocketchatApi::new(calls, rocketchat_server.rocketchat_url.clone()) {
            Ok(api) => api,
            Err(halt) => return Err(halt),
        };
        let api = api.with_credentials(
            CommandHandler::text_or_empty(&user.rocketchat_user_id),
            CommandHandler::text_or_empty(&user.rocketchat_auth_token),
        );
        match api.channels_list(calls) {
            Ok(channels) => Ok((user, channels, api)),
            Err(halt) => Err(halt),
        }
    }

    /// Lists the channels of the server: `list`. A channel that is bridged for the user
    /// stands between two pairs of asterisks, one that the user is in between two
    /// asterisks.
    pub fn list_channels(
        &self,
        store: &Store,
        calls: &mut Transcript,
        event: &MessageEvent,
        rocketchat_server: &RocketchatServer,
    ) -> (result: Result<(), Halt>)
        ensures
            reached(result, final(calls).pending()) == list_channels(
                old(calls).pending(),
                store.deep_view(),
                self.config.deep_view(),
                event.deep_view(),
                rocketchat_server.deep_view(),
            ),
    {
        let channels = match CommandHandler::channels_for(
            store,
            calls,
            event.user_id.as_str(),
            rocketchat_server,
        ) {
            Ok((_, channels, _)) => channels,
            Err(halt) => return Err(halt),
        };
        let bot_id = match self.config.matrix_bot_user_id() {
            Ok(bot_id) => bot_id,
            Err(error) => return Err(Halt::Fail(error)),
        };
        let channel_list = match self.build_channels_list(
            store,
            calls,
            rocketchat_server.id.as_str(),
            event.user_id.as_str(),
            &channels,
        ) {
            Ok(channel_list) => channel_list,
            Err(halt) => return Err(halt),
        };
        let message = Message::new(MessageKey::ListChannels).with_text(
            VarName::ChannelList,
            channel_list,
        );
        MatrixApi::send_text_message_event(
            calls,
            event.room_id.as_str(),
            bot_id.as_str(),
            Body::Localized(message),
        )
    }

    /// The paragraph of a channel in the list of channels.
    pub fn channel_line(channel: &Channel, bridged: bool, username: &Option<String>) -> (line: String)
        ensures
            line@ == channel_line(channel.deep_view(), bridged, username.deep_view()),
    {
        let in_channel = match username {
            Some(username) => contains_name(&channel.usernames, username.as_str()),
            None => false,
        };
        let marker = if bridged {
            text("**")
        } else if in_channel {
            text("*")
        } else {
            String::new()
        };
        let mut line = text("*   ");
        line.append(marker.as_str());
        line.append(channel.display_name().as_str());
        line.append(marker.as_str());
        line.append("\n\n");
        line
    }

    /// The list of the channels, one paragraph for each.
    pub fn build_channels_list(
        &self,
        store: &Store,
        calls: &mut Transcript,
        rocketchat_server_id: &str,
        matrix_user_id: &str,
        channels: &Vec<Channel>,
    ) -> (result: Result<String, Halt>)
        ensures
            reached(result, final(calls).pending()) == build_channels_list(
                old(calls).pending(),
                store.deep_view(),
                self.config.deep_view(),
                rocketchat_server_id@,
                matrix_user_id@,
                channels.deep_view(),
            ),
    {
        let user = match UserOnRocketchatServer::find(store, matrix_user_id, rocketchat_server_id) {
            Ok(user) => user,
            Err(error) => return Err(Halt::Fail(error)),
        };
        let mut channel_list = String::new();
        let ghost whole = channel_lines_from(
            calls.pending(),
            self.config.deep_view(),
            rocketchat_server_id@,
            matrix_user_id@,
            user.deep_view().rocketchat_username,
            channels.deep_view(),
            0,
            Seq::empty(),
        );
        let mut i: usize = 0;
        while i < channels.len()
            invariant
                i <= channels.len(),
                whole == build_channels_list(
                    old(calls).pending(),
                    store.deep_view(),
                    self.config.deep_view(),
                    rocketchat_server_id@,
                    matrix_user_id@,
                    channels.deep_view(),
                ),
                whole == channel_lines_from(
                    calls.pending(),
                    self.config.deep_view(),
                    rocketchat_server_id@,
                    matrix_user_id@,
                    user.deep_view().rocketchat_username,
                    channels.deep_view(),
                    i as int,
                    channel_list@,
                ),
            decreases channels.len() - i,
        {
            let bridged = match Room::is_bridged_for_user(
                self.config,
                calls,
                rocketchat_server_id,
                channels[i].id.as_str(),
                matrix_user_id,
            ) {
                Ok(bridged) => bridged,
                Err(halt) => return Err(halt),
            };
            let line = CommandHandler::channel_line(&channels[i], bridged, &user.rocketchat_username);
            channel_list.append(line.as_str());
            i = i + 1;
        }
        Ok(channel_list)
    }

    /// Bridges a channel for the user: `bridge` and the name of the channel. The user has
    /// to be in the channel on the Rocket.Chat server. A channel that has a room already
    /// gets the user invited into it; another gets a room.
    pub fn bridge(
        &self,
        store: &mut Store,
        calls: &mut Transcript,
        event: &MessageEvent,
        rocketchat_server: &RocketchatServer,
        message: &str,
    ) -> (result: Result<(), Halt>)
        requires
            old(store).wf(),
        ensures
            final(store).wf(),
            ran(result, final(store).deep_view(), final(calls).pending()) == bridge(
                old(store).deep_view(),
                old(calls).pending(),
                self.config.deep_view(),
                event.deep_view(),
                rocketchat_server.deep_view(),
                message@,
            ),
            result is Err ==> final(store).deep_view() == old(store).deep_view(),
    {
        let snapshot = store.clone();
        let bot_id = match self.config.matrix_bot_user_id() {
            Ok(bot_id) => bot_id,
            Err(error) => return Err(Halt::Fail(error)),
        };
        let (user, channels, rocketchat_api) = match CommandHandler::channels_for(
            store,
            calls,
            event.user_id.as_str(),
            rocketchat_server,
        ) {
            Ok(found) => found,
            Err(halt) => return Err(halt),
        };
        let words = split_whitespace(message);
        let channel_name = CommandHandler::word_at(&words, 1);
        let channel = match CommandHandler::channel_by_name(&channels, channel_name.as_str()) {
            Some(channel) => channel,
            None => {
                return Err(Halt::Fail(Error::rocketchat_channel_not_found(channel_name)));
            },
        };
        let username = CommandHandler::text_or_empty(&user.rocketchat_username);
        if !contains_name(&channel.usernames, username.as_str()) {
            return Err(Halt::Fail(Error::rocketchat_join_first(channel_name)));
        }
        let room_handler = RoomHandler::new(self.config);
        let matrix_room_id = match Room::matrix_id_from_rocketchat_channel_id(
            self.config,
            calls,
            rocketchat_server.id.as_str(),
            channel.id.as_str(),
        ) {
            Ok(Some(matrix_room_id)) => {
                match room_handler.bridge_existing_room(
                    calls,
                    matrix_room_id.as_str(),
                    event.user_id.as_str(),
                    channel_name,
                ) {
                    Ok(()) => matrix_room_id,
                    Err(halt) => return Err(halt),
                }
            },
            Ok(None) => {
                match room_handler.bridge_new_room(
                    store,
                    calls,
                    &rocketchat_api,
                    rocketchat_server.id.as_str(),
                    &channel,
                    bot_id.as_str(),
                    event.user_id.as_str(),
                ) {
                    Ok(matrix_room_id) => matrix_room_id,
                    Err(halt) => return Err(halt),
                }
            },
            Err(halt) => return Err(halt),
        };
        let alias = Room::build_room_alias_id(
            self.config,
            rocketchat_server.id.as_str(),
            channel.id.as_str(),
        );
        match MatrixApi::put_canonical_room_alias(calls, matrix_room_id.as_str(), Some(alias)) {
            Ok(()) => {},
            Err(halt) => {
                *store = snapshot;
                return Err(halt);
            },
        }
        let message = Message::new(MessageKey::RoomSuccessfullyBridged).with_text(
            VarName::ChannelName,
            channel.display_name(),
        );
        match MatrixApi::send_text_message_event(
            calls,
            event.room_id.as_str(),
            bot_id.as_str(),
            Body::Localized(message),
        ) {
            Ok(()) => Ok(()),
            Err(halt) => {
                *store = snapshot;
                Err(halt)
            },
        }
    }

    /// Unbridges a channel: `unbridge` and the name of the channel. The room of the
    /// channel must hold nobody but the bot and virtual users.
    pub fn unbridge(
        &self,
        store: &Store,
        calls: &mut Transcript,
        event: &MessageEvent,
        rocketchat_server: &RocketchatServer,
        message: &str,
    ) -> (result: Result<(), Halt>)
        ensures
            reached(result, final(calls).pending()) == unbridge(
                old(calls).pending(),
                store.deep_view(),
                self.config.deep_view(),
                event.deep_view(),
                rocketchat_server.deep_view(),
                message@,
            ),
    {
        let words = split_whitespace(message);
        let channel_name = CommandHandler::word_at(&words, 1);
        let channels = match CommandHandler::channels_for(
            store,
            calls,
            event.user_id.as_str(),
            rocketchat_server,
        ) {
            Ok((_, channels, _)) => channels,
            Err(halt) => return Err(halt),
        };
        let channel = match CommandHandler::channel_by_name(&channels, channel_name.as_str()) {
            Some(channel) => channel,
            None => {
                return Err(Halt::Fail(Error::unbridge_of_not_bridged_room(channel_name)));
            },
        };
        let matrix_room_id = match Room::matrix_id_from_rocketchat_channel_id(
            self.config,
            calls,
            rocketchat_server.id.as_str(),
            channel.id.as_str(),
        ) {
            Ok(Some(matrix_room_id)) => matrix_room_id,
            Ok(None) => {
                return Err(Halt::Fail(Error::unbridge_of_not_bridged_room(channel_name)));
            },
            Err(halt) => return Err(halt),
        };
        let members = match Room::user_ids(calls, matrix_room_id.as_str()) {
            Ok(members) => members,
            Err(halt) => return Err(halt),
        };
        let user_ids = Room::other_users(self.config, &members);
        if user_ids.len() > 0 {
            let users = join(&user_ids, ", ");
            return Err(Halt::Fail(Error::room_not_empty(channel_name, users)));
        }
        match MatrixApi::put_canonical_room_alias(calls, event.room_id.as_str(), None) {
            Ok(()) => {},
            Err(halt) => return Err(halt),
        }
        let alias = Room::build_room_alias_id(
            self.config,
            rocketchat_server.id.as_str(),
            channel.id.as_str(),
        );
        match MatrixApi::delete_room_alias(calls, alias.as_str()) {
            Ok(()) => {},
            Err(halt) => return Err(halt),
        }
        let bot_id = match self.config.matrix_bot_user_id() {
            Ok(bot_id) => bot_id,
            Err(error) => return Err(Halt::Fail(error)),
        };
        let message = Message::new(MessageKey::RoomSuccessfullyUnbridged).with_text(
            VarName::ChannelName,
            channel_name,
        );
        MatrixApi::send_text_message_event(
            calls,
            event.room_id.as_str(),
            bot_id.as_str(),
            Body::Localized(message),
        )
    }

    /// Takes a message of an admin room as a command. The first word of the message
    /// selects the command; a message that is no text, or whose first word is no
    /// command, is passed over.
    pub fn process(&self, store: &mut Store, calls: &mut Transcript, event: &MessageEvent, matrix_room_id: &str) -> (result:
        Result<(), Halt>)
        requires
            old(store).wf(),
        ensures
            final(store).wf(),
            ran(result, final(store).deep_view(), final(calls).pending()) == process(
                old(store).deep_view(),
                old(calls).pending(),
                self.config.deep_view(),
                event.deep_view(),
                matrix_room_id@,
            ),
            result is Err ==> final(store).deep_view() == old(store).deep_view(),
    {
        let message = match &event.content {
            MessageContent::Text(body) => body.clone(),
            MessageContent::Other => return Ok(()),
        };
        let command = CommandHandler::command(message.as_str());
        match command {
            Command::Connect => return self.connect(store, calls, event, message.as_str()),
            Command::Help => return self.help(store, calls, event),
            Command::Unknown => return Ok(()),
            _ => {},
        }
        let rocketchat_server = match CommandHandler::get_rocketchat_server(
            store,
            calls,
            matrix_room_id,
        ) {
            Ok(server) => server,
            Err(halt) => return Err(halt),
        };
        match command {
            Command::Login => self.login(store, calls, event, &rocketchat_server, message.as_str()),
            Command::List => self.list_channels(store, calls, event, &rocketchat_server),
            Command::Bridge => self.bridge(store, calls, event, &rocketchat_server, message.as_str()),
            Command::Unbridge => self.unbridge(
                store,
                calls,
                event,
                &rocketchat_server,
                message.as_str(),
            ),
            _ => Ok(()),
        }
    }

    /// The lines that list the servers.
    pub fn server_lines(servers: &Vec<RocketchatServer>) -> (lines: String)
        ensures
            lines@ == server_lines(servers.deep_view(), 0),
    {
        proof {
            reveal_strlit("* ");
            reveal_strlit("\n");
        }
        let mut lines = String::new();
        let mut i: usize = 0;
        while i < servers.len()
            invariant
                i <= servers.len(),
                "* "@ == seq!['*', ' '],
                "\n"@ == seq!['\n'],
                server_lines(servers.deep_view(), 0) == lines@ + server_lines(
                    servers.deep_view(),
                    i as int,
                ),
            decreases servers.len() - i,
        {
            lines.append("* ");
            lines.append(servers[i].rocketchat_url.as_str());
            lines.append("\n");
            i = i + 1;
        }
        lines
    }

    /// The help for a room, by how far the room has come.
    pub fn help_message(store: &Store, state: AdminRoomState, as_url: String, matrix_user_id: &str) -> (message:
        Message)
        ensures
            message.deep_view() == help_message(
                store.deep_view(),
                state.deep_view(),
                as_url@,
                matrix_user_id@,
            ),
    {
        match state {
            AdminRoomState::LoggedIn(server, _) => {
                let message = Message::new(MessageKey::UsageInstructions).with_text(
                    VarName::RocketchatUrl,
                    server.rocketchat_url,
                );
                message
            },
            AdminRoomState::Connected(server) => {
                let message = Message::new(MessageKey::LoginInstructions).with_text(
                    VarName::RocketchatUrl,
                    server.rocketchat_url,
                ).with_text(VarName::AsUrl, as_url).with_text(
                    VarName::MatrixUserId,
                    text(matrix_user_id),
                );
                assert(message.deep_view().vars =~= login_instructions(
                    server.rocketchat_url@,
                    as_url@,
                    matrix_user_id@,
                ).vars);
                message
            },
            AdminRoomState::Adopted => {
                let connected = RocketchatServer::find_connected_servers(store);
                let list = if connected.len() == 0 {
                    VarValue::Translated(MessageKey::NoRocketchatServerConnected)
                } else {
                    VarValue::Text(CommandHandler::server_lines(&connected))
                };
                let message = Message::new(MessageKey::ConnectionInstructions).with_text(
                    VarName::AsUrl,
                    as_url,
                ).with(VarName::ServerList, list);
                assert(message.deep_view().vars =~= connection_instructions(
                    store.deep_view(),
                    as_url@,
                ).vars);
                message
            },
        }
    }

    /// The help for the room: how to connect where the room is connected to no server, how
    /// to log in where its user is not logged in, and the commands where the user is.
    pub fn build_help_message(
        store: &Store,
        calls: &mut Transcript,
        as_url: String,
        matrix_room_id: &str,
        matrix_user_id: &str,
    ) -> (result: Result<Message, Halt>)
        ensures
            reached(result, final(calls).pending()) == build_help_message(
                old(calls).pending(),
                store.deep_view(),
                as_url@,
                matrix_room_id@,
                matrix_user_id@,
            ),
    {
        let server = match Room::rocketchat_server_for_admin_room(store, calls, matrix_room_id) {
            Ok(server) => server,
            Err(halt) => return Err(halt),
        };
        let state = Room::admin_room_state(store, server, matrix_user_id);
        Ok(CommandHandler::help_message(store, state, as_url, matrix_user_id))
    }
}

} // verus!
