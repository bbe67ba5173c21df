//! Rooms. The bridge keeps no record of them: what a room is to the bridge is read from the
//! homeserver, from the room's members, its topic and its aliases.

use vstd::prelude::*;
use crate::api::exchange::{give, reached, stop, Halt, ReplyView, Step, Transcript};
use crate::api::matrix;
use crate::api::matrix::MatrixApi;
use crate::config::{bot_user_id, virtual_user_prefix, Config, ConfigView};
use crate::db::rocketchat_server::{server_by_url, RocketchatServer, RocketchatServerView};
use crate::db::store::{Store, StoreView};
use crate::db::user_on_rocketchat_server::{
    logged_in,
    user_on_server,
    UserOnRocketchatServer,
    UserOnRocketchatServerView,
};
use crate::seqs::{first_match, lemma_first_match};
use crate::text::{chars_of, contains_text, occurs_in, starts_with, text};

verus! {

/// The name of the alias of the room of a channel: the sender's local part, the id of the
/// server and the id of the channel, with an underscore between each two.
pub open spec fn room_alias_name(
    config: ConfigView,
    rocketchat_server_id: Seq<char>,
    rocketchat_channel_id: Seq<char>,
) -> Seq<char> {
    config.sender_localpart + seq!['_'] + rocketchat_server_id + seq!['_'] + rocketchat_channel_id
}

/// The alias of the room of a channel: `#`, the name of the alias, a colon and the
/// homeserver's domain.
pub open spec fn room_alias_id(
    config: ConfigView,
    rocketchat_server_id: Seq<char>,
    rocketchat_channel_id: Seq<char>,
) -> Seq<char> {
    seq!['#'] + room_alias_name(config, rocketchat_server_id, rocketchat_channel_id) + seq![':']
        + config.hs_domain
}

/// The local part of an identifier: what stands between its first character and its first
/// colon.
pub open spec fn local_part(id: Seq<char>) -> Seq<char> {
    if id.len() == 0 {
        id
    } else {
        id.subrange(1, first_index_from_one(id))
    }
}

/// The index of the first colon of `id` that is not its first character; the length of `id`
/// where there is none.
pub open spec fn first_index_from_one(id: Seq<char>) -> int {
    crate::identifiers::first_index_from(id, ':', 1)
}

/// What marks the room of a conversation between two users of a Rocket.Chat server.
pub open spec fn direct_message_marker() -> Seq<char> {
    seq!['D', 'M', 'R', 'o', 'c', 'k', 'e', 't', 'C', 'h', 'a', 't']
}

/// Whether a room mirrors a conversation between two users of a Rocket.Chat server: the
/// local part of its id holds the marker.
pub open spec fn direct_message_room(room_id: Seq<char>) -> bool {
    occurs_in(direct_message_marker(), local_part(room_id))
}

/// Whether the bot or a virtual user has the given id: it begins with `@` and the sender's
/// local part.
pub open spec fn has_sender_prefix(config: ConfigView, user_id: Seq<char>) -> bool {
    virtual_user_prefix(config).is_prefix_of(user_id)
}

/// Whether a room with these members is one in which the bot takes commands: the bot is
/// among them, and no virtual user is.
pub open spec fn admin_room_candidate(config: ConfigView, members: Seq<Seq<char>>) -> bool {
    &&& members.contains(bot_user_id(config))
    &&& forall|i: int|
        0 <= i < members.len() && has_sender_prefix(config, #[trigger] members[i]) ==> members[i]
            == bot_user_id(config)
}

/// The members of a room that are neither the bot nor virtual users.
pub open spec fn other_users(config: ConfigView, members: Seq<Seq<char>>) -> Seq<Seq<char>> {
    members.filter(|id: Seq<char>| !has_sender_prefix(config, id))
}

/// Whether a room with these members is private: it has two members at most.
pub open spec fn private_room(members: Seq<Seq<char>>) -> bool {
    members.len() <= 2
}

/// How far an admin room has come.
#[derive(Debug, PartialEq, Eq)]
pub enum AdminRoomState {
    /// The bot has joined the room, and the room is connected to no server.
    Adopted,
    /// The room is connected to a server, and its user is not logged in there.
    Connected(RocketchatServer),
    /// The room is connected to a server, and its user is logged in there.
    LoggedIn(RocketchatServer, UserOnRocketchatServer),
}

/// The mathematical value of an [`AdminRoomState`].
pub enum AdminRoomStateView {
    /// The room is connected to no server.
    Adopted,
    /// The room is connected to a server, and its user is not logged in there.
    Connected(RocketchatServerView),
    /// The room is connected to a server, and its user is logged in there.
    LoggedIn(RocketchatServerView, UserOnRocketchatServerView),
}

impl DeepView for AdminRoomState {
    type V = AdminRoomStateView;

    open spec fn deep_view(&self) -> AdminRoomStateView {
        match self {
            AdminRoomState::Adopted => AdminRoomStateView::Adopted,
            AdminRoomState::Connected(server) => AdminRoomStateView::Connected(server.deep_view()),
            AdminRoomState::LoggedIn(server, user) => AdminRoomStateView::LoggedIn(
                server.deep_view(),
                user.deep_view(),
            ),
        }
    }
}

/// How far the admin room of a user has come, by the server that the room is connected to.
/// The user is logged in whose record on that server holds an id and a token.
pub open spec fn admin_room_state(
    store: StoreView,
    server: Option<RocketchatServerView>,
    matrix_user_id: Seq<char>,
) -> AdminRoomStateView {
    match server {
        None => AdminRoomStateView::Adopted,
        Some(server) => match user_on_server(
            store.users_on_rocketchat_servers,
            matrix_user_id,
            server.id,
        ) {
            None => AdminRoomStateView::Connected(server),
            Some(user) => if logged_in(user) {
                AdminRoomStateView::LoggedIn(server, user)
            } else {
                AdminRoomStateView::Connected(server)
            },
        },
    }
}

/// What [`Room::is_admin_room`] gives over the answers `pending`.
pub open spec fn is_admin_room(pending: Seq<ReplyView>, config: ConfigView, room_id: Seq<char>) -> Step<
    bool,
> {
    let asked = matrix::get_room_members(pending, room_id);
    match asked.result {
        Err(halt) => stop(halt, asked.pending),
        Ok(members) => give(admin_room_candidate(config, members), asked.pending),
    }
}

/// What [`Room::matrix_id_from_rocketchat_channel_id`] gives over the answers `pending`.
pub open spec fn matrix_id_from_rocketchat_channel_id(
    pending: Seq<ReplyView>,
    config: ConfigView,
    rocketchat_server_id: Seq<char>,
    rocketchat_channel_id: Seq<char>,
) -> Step<Option<Seq<char>>> {
    matrix::get_room_alias(pending, room_alias_id(config, rocketchat_server_id, rocketchat_channel_id))
}

/// What [`Room::is_bridged_for_user`] gives over the answers `pending`: whether the channel
/// has a room and the user is among the members of that room.
pub open spec fn is_bridged_for_user(
    pending: Seq<ReplyView>,
    config: ConfigView,
    rocketchat_server_id: Seq<char>,
    rocketchat_channel_id: Seq<char>,
    matrix_user_id: Seq<char>,
) -> Step<bool> {
    let resolved = matrix_id_from_rocketchat_channel_id(
        pending,
        config,
        rocketchat_server_id,
        rocketchat_channel_id,
    );
    match resolved.result {
        Err(halt) => stop(halt, resolved.pending),
        Ok(None) => give(false, resolved.pending),
        Ok(Some(room_id)) => {
            let asked = matrix::get_room_members(resolved.pending, room_id);
            match asked.result {
                Err(halt) => stop(halt, asked.pending),
                Ok(members) => give(members.contains(matrix_user_id), asked.pending),
            }
        },
    }
}

/// What [`Room::rocketchat_server_for_admin_room`] gives over the answers `pending`: the
/// server whose address is the topic of the room.
pub open spec fn rocketchat_server_for_admin_room(
    pending: Seq<ReplyView>,
    store: StoreView,
    room_id: Seq<char>,
) -> Step<Option<RocketchatServerView>> {
    let asked = matrix::get_room_topic(pending, room_id);
    match asked.result {
        Err(halt) => stop(halt, asked.pending),
        Ok(None) => give(None, asked.pending),
        Ok(Some(topic)) => give(server_by_url(store.rocketchat_servers, topic), asked.pending),
    }
}

/// What [`User::is_in_room`](crate::db::User::is_in_room) gives over the answers `pending`.
pub open spec fn is_in_room(pending: Seq<ReplyView>, user_id: Seq<char>, room_id: Seq<char>) -> Step<
    bool,
> {
    let asked = matrix::get_room_members(pending, room_id);
    match asked.result {
        Err(halt) => stop(halt, asked.pending),
        Ok(members) => give(members.contains(user_id), asked.pending),
    }
}

/// Whether an alias lies on the homeserver's domain: it is `#`, its local part, a colon and
/// the domain.
pub open spec fn on_homeserver(config: ConfigView, alias: Seq<char>) -> bool {
    alias == seq!['#'] + local_part(alias) + seq![':'] + config.hs_domain
}

/// The channel that an alias names on the server of the given id: what follows, in the
/// local part of the alias, the sender's local part, an underscore, the id and another
/// underscore; `None` where the local part does not begin with these, or where the alias
/// does not lie on the homeserver's domain.
pub open spec fn channel_of_alias(config: ConfigView, rocketchat_server_id: Seq<char>, alias: Seq<char>) -> Option<
    Seq<char>,
> {
    let prefix = config.sender_localpart + seq!['_'] + rocketchat_server_id + seq!['_'];
    if on_homeserver(config, alias) && prefix.is_prefix_of(local_part(alias)) {
        Some(local_part(alias).skip(prefix.len() as int))
    } else {
        None
    }
}

/// An alias names the channel that it was made for, as long as neither the sender's local
/// part nor the two ids hold a colon.
pub proof fn lemma_alias_names_its_channel(
    config: ConfigView,
    rocketchat_server_id: Seq<char>,
    rocketchat_channel_id: Seq<char>,
)
    requires
        !config.sender_localpart.contains(':'),
        !rocketchat_server_id.contains(':'),
        !rocketchat_channel_id.contains(':'),
    ensures
        channel_of_alias(
            config,
            rocketchat_server_id,
            room_alias_id(config, rocketchat_server_id, rocketchat_channel_id),
        ) == Some(rocketchat_channel_id),
{
    let name = room_alias_name(config, rocketchat_server_id, rocketchat_channel_id);
    let alias = room_alias_id(config, rocketchat_server_id, rocketchat_channel_id);
    assert forall|j: int| 0 <= j < name.len() implies name[j] != ':' by {
        let a = config.sender_localpart.len() as int;
        let b = rocketchat_server_id.len() as int;
        if j < a {
            assert(config.sender_localpart.contains(name[j]));
        } else if j == a {
        } else if j < a + 1 + b {
            assert(rocketchat_server_id.contains(name[j]));
        } else if j == a + 1 + b {
        } else {
            assert(rocketchat_channel_id.contains(name[j]));
        }
    }
    assert forall|j: int| 1 <= j < 1 + name.len() implies alias[j] != ':' by {
        assert(alias[j] == name[j - 1]);
    }
    let end = 1 + name.len() as int;
    crate::identifiers::lemma_first_index_from(alias, ':', 1, end);
    assert(local_part(alias) =~= name);
}

/// Whether the alias names a channel of the given server.
pub open spec fn names_channel_of(config: ConfigView, alias: Seq<char>) -> spec_fn(
    RocketchatServerView,
) -> bool {
    |server: RocketchatServerView| channel_of_alias(config, server.id, alias) is Some
}

/// The server and the channel that an alias names: the first server of the store of which
/// the alias names a channel, and that channel.
pub open spec fn bridged_channel(config: ConfigView, store: StoreView, alias: Seq<char>) -> Option<
    (RocketchatServerView, Seq<char>),
> {
    let at = first_match(store.rocketchat_servers, names_channel_of(config, alias));
    if at < store.rocketchat_servers.len() {
        Some(
            (
                store.rocketchat_servers[at],
                channel_of_alias(config, store.rocketchat_servers[at].id, alias)->0,
            ),
        )
    } else {
        None
    }
}

/// Whether `needle` is among `names`.
pub fn contains_name(names: &Vec<String>, needle: &str) -> (found: bool)
    ensures
        found == names.deep_view().contains(needle@),
{
    let wanted = text(needle);
    let mut i: usize = 0;
    while i < names.len()
        invariant
            i <= names.len(),
            wanted@ == needle@,
            forall|j: int| 0 <= j < i ==> names.deep_view()[j] != needle@,
        decreases names.len() - i,
    {
        if names[i] == wanted {
            assert(names.deep_view()[i as int] == needle@);
            return true;
        }
        i = i + 1;
    }
    false
}

/// The local part of `id`.
pub fn local_part_of(id: &str) -> (part: String)
    ensures
        part@ == local_part(id@),
{
    let cs = chars_of(id);
    if cs.len() == 0 {
        return text(id);
    }
    let mut end: usize = 1;
    while end < cs.len() && cs[end] != ':'
        invariant
            1 <= end <= cs.len(),
            cs@ == id@,
            first_index_from_one(id@) == crate::identifiers::first_index_from(id@, ':', end as int),
        decreases cs.len() - end,
    {
        end = end + 1;
    }
    text(id.substring_char(1, end))
}

/// A room.
#[derive(Debug, PartialEq, Eq)]
pub struct Room;

impl Room {
    /// The name of the alias of the room of a channel.
    pub fn build_room_alias_name(config: &Config, rocketchat_server_id: &str, rocketchat_channel_id: &str) -> (name:
        String)
        ensures
            name@ == room_alias_name(config.deep_view(), rocketchat_server_id@, rocketchat_channel_id@),
    {
        proof {
            reveal_strlit("_");
        }
        let mut name = config.sender_localpart.clone();
        name.append("_");
        name.append(rocketchat_server_id);
        name.append("_");
        name.append(rocketchat_channel_id);
        name
    }

    /// The alias of the room of a channel. It depends on the sender's local part, on the
    /// homeserver's domain and on the two ids, and on nothing else.
    pub fn build_room_alias_id(config: &Config, rocketchat_server_id: &str, rocketchat_channel_id: &str) -> (alias:
        String)
        ensures
            alias@ == room_alias_id(config.deep_view(), rocketchat_server_id@, rocketchat_channel_id@),
    {
        proof {
            reveal_strlit("#");
            reveal_strlit(":");
        }
        let name = Room::build_room_alias_name(config, rocketchat_server_id, rocketchat_channel_id);
        let mut alias = text("#");
        alias.append(name.as_str());
        alias.append(":");
        alias.append(config.hs_domain.as_str());
        alias
    }

    /// Whether the room mirrors a conversation between two users of a Rocket.Chat server.
    pub fn is_direct_message_room(room_id: &str) -> (yes: bool)
        ensures
            yes == direct_message_room(room_id@),
    {
        proof {
            reveal_strlit("DMRocketChat");
        }
        let part = local_part_of(room_id);
        assert("DMRocketChat"@ =~= direct_message_marker());
        contains_text(part.as_str(), "DMRocketChat")
    }

    /// Whether a room with these members is one in which the bot takes commands.
    pub fn is_admin_room_candidate(config: &Config, members: &Vec<String>) -> (yes: bool)
        ensures
            yes == admin_room_candidate(config.deep_view(), members.deep_view()),
    {
        let bot = config.bot_user_id();
        let prefix = config.virtual_user_prefix();
        if !contains_name(members, bot.as_str()) {
            return false;
        }
        let mut i: usize = 0;
        while i < members.len()
            invariant
                i <= members.len(),
                bot@ == bot_user_id(config.deep_view()),
                prefix@ == virtual_user_prefix(config.deep_view()),
                forall|j: int|
                    0 <= j < i && has_sender_prefix(config.deep_view(), #[trigger] members.deep_view()[j])
                        ==> members.deep_view()[j] == bot_user_id(config.deep_view()),
            decreases members.len() - i,
        {
            if starts_with(members[i].as_str(), prefix.as_str()) && !(members[i] == bot) {
                assert(has_sender_prefix(config.deep_view(), members.deep_view()[i as int]));
                return false;
            }
            i = i + 1;
        }
        true
    }

    /// The members that are neither the bot nor virtual users.
    pub fn other_users(config: &Config, members: &Vec<String>) -> (others: Vec<String>)
        ensures
            others.deep_view() == other_users(config.deep_view(), members.deep_view()),
    {
        let prefix = config.virtual_user_prefix();
        let ghost view = config.deep_view();
        let ghost all = members.deep_view();
        let ghost pred = |id: Seq<char>| !has_sender_prefix(view, id);
        let mut others: Vec<String> = Vec::new();
        let mut i: usize = 0;
        proof {
            reveal(Seq::filter);
        }
        while i < members.len()
            invariant
                i <= members.len(),
                all == members.deep_view(),
                view == config.deep_view(),
                prefix@ == virtual_user_prefix(view),
                pred == |id: Seq<char>| !has_sender_prefix(view, id),
                others.deep_view() == all.take(i as int).filter(pred),
            decreases members.len() - i,
        {
            proof {
                reveal(Seq::filter);
                assert(all.take(i + 1).drop_last() =~= all.take(i as int));
            }
            if !starts_with(members[i].as_str(), prefix.as_str()) {
                others.push(members[i].clone());
            }
            i = i + 1;
        }
        assert(all.take(i as int) =~= all);
        others
    }

    /// Whether a room with these members is private.
    pub fn is_private_room(members: &Vec<String>) -> (yes: bool)
        ensures
            yes == private_room(members.deep_view()),
    {
        members.len() <= 2
    }

    /// The ids of the users that are joined to the room.
    pub fn user_ids(calls: &mut Transcript, room_id: &str) -> (result: Result<Vec<String>, Halt>)
        ensures
            reached(result, final(calls).pending()) == matrix::get_room_members(
                old(calls).pending(),
                room_id@,
            ),
    {
        MatrixApi::get_room_members(calls, room_id)
    }

    /// Whether the room is one in which the bot takes commands.
    pub fn is_admin_room(calls: &mut Transcript, config: &Config, room_id: &str) -> (result: Result<
        bool,
        Halt,
    >)
        ensures
            reached(result, final(calls).pending()) == is_admin_room(
                old(calls).pending(),
                config.deep_view(),
                room_id@,
            ),
    {
        match MatrixApi::get_room_members(calls, room_id) {
            Ok(members) => Ok(Room::is_admin_room_candidate(config, &members)),
            Err(halt) => Err(halt),
        }
    }

    /// The id of the room of a channel, if the channel has a room.
    pub fn matrix_id_from_rocketchat_channel_id(
        config: &Config,
        calls: &mut Transcript,
        rocketchat_server_id: &str,
        rocketchat_channel_id: &str,
    ) -> (result: Result<Option<String>, Halt>)
        ensures
            reached(result, final(calls).pending())
                == matrix_id_from_rocketchat_channel_id(
                old(calls).pending(),
                config.deep_view(),
                rocketchat_server_id@,
                rocketchat_channel_id@,
            ),
    {
        let alias = Room::build_room_alias_id(config, rocketchat_server_id, rocketchat_channel_id);
        MatrixApi::get_room_alias(calls, alias.as_str())
    }

    /// Whether the channel is bridged for the user: it has a room, and the user is in it.
    pub fn is_bridged_for_user(
        config: &Config,
        calls: &mut Transcript,
        rocketchat_server_id: &str,
        rocketchat_channel_id: &str,
        matrix_user_id: &str,
    ) -> (result: Result<bool, Halt>)
        ensures
            reached(result, final(calls).pending()) == is_bridged_for_user(
                old(calls).pending(),
                config.deep_view(),
                rocketchat_server_id@,
                rocketchat_channel_id@,
                matrix_user_id@,
            ),
    {
        let room_id = match Room::matrix_id_from_rocketchat_channel_id(
            config,
            calls,
            rocketchat_server_id,
            rocketchat_channel_id,
        ) {
            Ok(Some(room_id)) => room_id,
            Ok(None) => return Ok(false),
            Err(halt) => return Err(halt),
        };
        match MatrixApi::get_room_members(calls, room_id.as_str()) {
            Ok(members) => Ok(contains_name(&members, matrix_user_id)),
            Err(halt) => Err(halt),
        }
    }

    /// The server that an admin room is connected to, if it is connected to one: the server
    /// whose address is the topic of the room.
    pub fn rocketchat_server_for_admin_room(store: &Store, calls: &mut Transcript, room_id: &str) -> (result:
        Result<Option<RocketchatServer>, Halt>)
        ensures
            reached(result, final(calls).pending())
                == rocketchat_server_for_admin_room(
                old(calls).pending(),
                store.deep_view(),
                room_id@,
            ),
    {
        match MatrixApi::get_room_topic(calls, room_id) {
            Ok(Some(topic)) => Ok(RocketchatServer::find_by_url(store, topic.as_str())),
            Ok(None) => Ok(None),
            Err(halt) => Err(halt),
        }
    }

    /// How far the admin room of a user has come, by the server that the room is connected
    /// to.
    pub fn admin_room_state(store: &Store, server: Option<RocketchatServer>, matrix_user_id: &str) -> (state:
        AdminRoomState)
        ensures
            state.deep_view() == admin_room_state(
                store.deep_view(),
                server.deep_view(),
                matrix_user_id@,
            ),
    {
        let server = match server {
            Some(server) => server,
            None => return AdminRoomState::Adopted,
        };
        match UserOnRocketchatServer::find(store, matrix_user_id, server.id.as_str()) {
            Ok(user) => if user.is_logged_in() {
                AdminRoomState::LoggedIn(server, user)
            } else {
                AdminRoomState::Connected(server)
            },
            Err(_) => AdminRoomState::Connected(server),
        }
    }

    /// Whether an alias lies on the homeserver's domain.
    pub fn is_on_homeserver(config: &Config, alias: &str) -> (yes: bool)
        ensures
            yes == on_homeserver(config.deep_view(), alias@),
    {
        proof {
            reveal_strlit("#");
            reveal_strlit(":");
        }
        let part = local_part_of(alias);
        let mut expected = text("#");
        expected.append(part.as_str());
        expected.append(":");
        expected.append(config.hs_domain.as_str());
        assert(expected@ =~= seq!['#'] + local_part(alias@) + seq![':'] + config.deep_view().hs_domain);
        expected == text(alias)
    }

    /// The channel that an alias names on the server of the given id, if it names one.
    pub fn channel_of_alias(config: &Config, rocketchat_server_id: &str, alias: &str) -> (channel: Option<
        String,
    >)
        ensures
            channel.deep_view() == channel_of_alias(config.deep_view(), rocketchat_server_id@, alias@),
    {
        proof {
            reveal_strlit("_");
        }
        let mut prefix = config.sender_localpart.clone();
        prefix.append("_");
        prefix.append(rocketchat_server_id);
        prefix.append("_");
        let part = local_part_of(alias);
        if Room::is_on_homeserver(config, alias) && starts_with(part.as_str(), prefix.as_str()) {
            let from = prefix.as_str().unicode_len();
            let to = part.as_str().unicode_len();
            let channel = text(part.as_str().substring_char(from, to));
            Some(channel)
        } else {
            None
        }
    }

    /// The server and the channel that an alias names, if it names a channel of a server
    /// of the store.
    pub fn bridged_channel(config: &Config, store: &Store, alias: &str) -> (found: Option<
        (RocketchatServer, String),
    >)
        ensures
            found.deep_view() == bridged_channel(config.deep_view(), store.deep_view(), alias@),
    {
        let ghost pred = names_channel_of(config.deep_view(), alias@);
        let ghost servers = store.deep_view().rocketchat_servers;
        let mut i: usize = 0;
        while i < store.rocketchat_servers.len()
            invariant
                i <= store.rocketchat_servers.len(),
                servers == store.deep_view().rocketchat_servers,
                pred == names_channel_of(config.deep_view(), alias@),
                forall|j: int| 0 <= j < i ==> !pred(#[trigger] servers[j]),
            decreases store.rocketchat_servers.len() - i,
        {
            match Room::channel_of_alias(config, store.rocketchat_servers[i].id.as_str(), alias) {
                Some(channel) => {
                    proof {
                        lemma_first_match(servers, pred, i as int);
                    }
                    return Some((store.rocketchat_servers[i].clone(), channel));
                },
                None => {
                    assert(!pred(servers[i as int]));
                },
            }
            i = i + 1;
        }
        proof {
            lemma_first_match(servers, pred, i as int);
        }
        None
    }
}

} // verus!
