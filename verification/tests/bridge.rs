use std::collections::BTreeMap;

use matrix_rocketchat::api::payload::{self, Member};
use matrix_rocketchat::api::rocketchat::{Channel, Message};
use matrix_rocketchat::api::{Body, Halt, Reply, Request};
use matrix_rocketchat::config::Config;
use matrix_rocketchat::db::{RocketchatServer, Store, User, UserOnRocketchatServer};
use matrix_rocketchat::errors::ErrorKind;
use matrix_rocketchat::i18n::{self, MessageKey, VarName, VarValue};
use matrix_rocketchat::models::{Event, MemberEvent, MembershipState, MessageContent, MessageEvent, PrevSender};
use matrix_rocketchat::server::{Progress, Server};

const HS_TOKEN: &str = "ht";
const RS_TOKEN: &str = "rt";
const ADMIN_ROOM: &str = "!admin_room_id:localhost";
const CHANNEL_ROOM: &str = "!spec_channel_id:localhost";
const BOT: &str = "@rocketchat:localhost";
const SPEC_USER: &str = "@spec_user:localhost";
const RC_URL: &str = "http://rc.example";

/// A room of the homeserver that the tests put in the place of a real one.
struct Room {
    creator: String,
    members: Vec<String>,
    topic: Option<String>,
    name: Option<Body>,
    canonical_alias: Option<String>,
}

/// The homeserver and the Rocket.Chat server that the tests put in the place of real ones.
struct World {
    rooms: BTreeMap<String, Room>,
    aliases: BTreeMap<String, String>,
    registered: Vec<String>,
    display_names: Vec<(String, String)>,
    invites: Vec<(String, String, String)>,
    joins: Vec<(String, String)>,
    sent: Vec<(String, String, Body)>,
    posted: Vec<(String, String, String, String)>,
    power_levels: Vec<(String, String, u32, String, u32, u32, u32, u32)>,
    forgotten: Vec<String>,
    deleted_aliases: Vec<String>,
    channels: Vec<Channel>,
    asked: Vec<String>,
    fail_display_name: bool,
    fail_invite_of: Option<String>,
    fail_send: bool,
    rocketchat_down: bool,
}

impl World {
    fn new() -> World {
        World {
            rooms: BTreeMap::new(),
            aliases: BTreeMap::new(),
            registered: Vec::new(),
            display_names: Vec::new(),
            invites: Vec::new(),
            joins: Vec::new(),
            sent: Vec::new(),
            posted: Vec::new(),
            power_levels: Vec::new(),
            forgotten: Vec::new(),
            deleted_aliases: Vec::new(),
            channels: Vec::new(),
            asked: Vec::new(),
            fail_display_name: false,
            fail_invite_of: None,
            fail_send: false,
            rocketchat_down: false,
        }
    }

    fn create_room(&mut self, room_id: &str, creator: &str) {
        self.rooms.insert(
            room_id.to_string(),
            Room {
                creator: creator.to_string(),
                members: vec![creator.to_string()],
                topic: None,
                name: None,
                canonical_alias: None,
            },
        );
    }

    fn members(&self, room_id: &str) -> Vec<String> {
        self.rooms[room_id].members.clone()
    }

    fn join(&mut self, room_id: &str, user_id: &str) {
        let room = self.rooms.get_mut(room_id).unwrap();
        if !room.members.iter().any(|m| m == user_id) {
            room.members.push(user_id.to_string());
        }
    }

    fn leave(&mut self, room_id: &str, user_id: &str) {
        let room = self.rooms.get_mut(room_id).unwrap();
        room.members.retain(|m| m != user_id);
    }

    fn plain_texts(&self) -> Vec<String> {
        let mut texts = Vec::new();
        for (_, _, body) in &self.sent {
            if let Body::Plain(text) = body {
                texts.push(text.clone());
            }
        }
        texts
    }

    fn keys_sent(&self) -> Vec<MessageKey> {
        let mut keys = Vec::new();
        for (_, _, body) in &self.sent {
            if let Body::Localized(message) = body {
                keys.push(message.key);
            }
        }
        keys
    }

    fn perform(&mut self, request: &Request) -> Reply {
        self.asked.push(format!("{:?}", request));
        match request {
            Request::GetRoomTopic { room_id } => match self.rooms.get(room_id) {
                Some(room) => match &room.topic {
                    Some(topic) => Reply::Text(topic.clone()),
                    None => Reply::Done,
                },
                None => Reply::Failed("no such room".to_string()),
            },
            Request::GetRoomMembers { room_id } => match self.rooms.get(room_id) {
                Some(room) => Reply::Names(room.members.clone()),
                None => Reply::Failed("no such room".to_string()),
            },
            Request::GetRoomCreator { room_id } => match self.rooms.get(room_id) {
                Some(room) => Reply::Text(room.creator.clone()),
                None => Reply::Failed("no such room".to_string()),
            },
            Request::GetRoomAlias { alias } => match self.aliases.get(alias) {
                Some(room_id) => Reply::Text(room_id.clone()),
                None => Reply::Done,
            },
            Request::GetCanonicalAlias { room_id } => match self.rooms.get(room_id) {
                Some(room) => match &room.canonical_alias {
                    Some(alias) => Reply::Text(alias.clone()),
                    None => Reply::Done,
                },
                None => Reply::Failed("no such room".to_string()),
            },
            Request::Register { username } => {
                let user_id = format!("@{}:localhost", username);
                if self.registered.contains(&user_id) {
                    return Reply::Refused("M_USER_IN_USE".to_string(), "User ID already taken.".to_string());
                }
                self.registered.push(user_id);
                Reply::Done
            }
            Request::CreateRoom { room_name, room_alias_name, creator_id } => {
                let alias_name = room_alias_name.clone().unwrap();
                let channel_id = alias_name
                    .strip_prefix("rocketchat_rc_id_")
                    .or(alias_name.strip_prefix("rocketchat_srv1_"))
                    .unwrap();
                // the room of a conversation is named after the one who writes
                let room_id = match room_name {
                    Some(name) if name.ends_with("DMRocketChat") => format!("!{}_id:localhost", name),
                    _ => format!("!{}:localhost", channel_id),
                };
                self.create_room(&room_id, creator_id);
                self.rooms.get_mut(&room_id).unwrap().name = room_name.clone().map(Body::Plain);
                self.aliases.insert(format!("#{}:localhost", alias_name), room_id.clone());
                Reply::Text(room_id)
            }
            Request::SetDefaultPowerlevels { room_id, power_levels } => {
                self.power_levels.push((
                    room_id.clone(),
                    power_levels.bot_id.clone(),
                    power_levels.bot_level,
                    power_levels.bridger_id.clone(),
                    power_levels.bridger_level,
                    power_levels.users_default,
                    power_levels.state_default,
                    power_levels.events_default,
                ));
                Reply::Done
            }
            Request::Invite { room_id, user_id, sender_id } => {
                if let Some(part) = &self.fail_invite_of {
                    if user_id.contains(part.as_str()) {
                        return Reply::Failed("Could not invite user".to_string());
                    }
                }
                self.invites.push((room_id.clone(), user_id.clone(), sender_id.clone()));
                if !user_id.starts_with("@rocketchat") {
                    self.join(room_id, user_id);
                }
                Reply::Done
            }
            Request::Join { room_id, user_id } => {
                self.joins.push((room_id.clone(), user_id.clone()));
                self.join(room_id, user_id);
                Reply::Done
            }
            Request::LeaveRoom { room_id, user_id } => {
                self.leave(room_id, user_id);
                Reply::Done
            }
            Request::ForgetRoom { room_id } => {
                self.forgotten.push(room_id.clone());
                Reply::Done
            }
            Request::PutCanonicalRoomAlias { room_id, canonical_alias } => {
                self.rooms.get_mut(room_id).unwrap().canonical_alias = canonical_alias.clone();
                Reply::Done
            }
            Request::DeleteRoomAlias { alias } => {
                self.deleted_aliases.push(alias.clone());
                self.aliases.remove(alias);
                for room in self.rooms.values_mut() {
                    if room.canonical_alias.as_ref() == Some(alias) {
                        room.canonical_alias = None;
                    }
                }
                Reply::Done
            }
            Request::SetRoomTopic { room_id, topic } => {
                self.rooms.get_mut(room_id).unwrap().topic = Some(topic.clone());
                Reply::Done
            }
            Request::SetRoomName { room_id, name } => {
                self.rooms.get_mut(room_id).unwrap().name = Some(copy_body(name));
                Reply::Done
            }
            Request::SendTextMessageEvent { room_id, sender_id, body } => {
                if self.fail_send {
                    return Reply::Failed("Could not send message".to_string());
                }
                self.sent.push((room_id.clone(), sender_id.clone(), copy_body(body)));
                Reply::Done
            }
            Request::SetDisplayName { user_id, display_name } => {
                if self.fail_display_name {
                    return Reply::Failed("Could not set display name".to_string());
                }
                self.display_names.push((user_id.clone(), display_name.clone()));
                Reply::Done
            }
            Request::Probe { .. } => {
                if self.rocketchat_down {
                    Reply::Failed("connection refused".to_string())
                } else {
                    Reply::Done
                }
            }
            Request::Login { username, password, .. } => {
                if password == "secret" || password == "hunter2" {
                    Reply::Credentials(format!("{}_id", username), format!("{}_auth_token", username))
                } else {
                    Reply::Failed("Unauthorized".to_string())
                }
            }
            Request::ChannelsList { .. } => Reply::Channels(self.channels.clone()),
            Request::DirectMessagesList { .. } => {
                Reply::Channels(self.channels.iter().filter(|channel| channel.name.is_none()).cloned().collect())
            }
            Request::UsersInfo { username, .. } => Reply::Text(format!("{}_id", username)),
            Request::PostChatMessage { rocketchat_url, user_id, channel_id, text, .. } => {
                self.posted.push((rocketchat_url.clone(), user_id.clone(), channel_id.clone(), text.clone()));
                Reply::Done
            }
        }
    }
}

fn copy_body(body: &Body) -> Body {
    match body {
        Body::Plain(text) => Body::Plain(text.clone()),
        Body::Localized(message) => Body::Localized(message.clone()),
    }
}

fn config() -> Config {
    Config {
        hs_domain: "localhost".to_string(),
        as_url: "http://as.example".to_string(),
        hs_token: HS_TOKEN.to_string(),
        sender_localpart: "rocketchat".to_string(),
        accept_remote_invites: false,
    }
}

/// The bridge with its store, in a world of the tests' making.
struct Test {
    config: Config,
    store: Store,
    world: World,
    now: i64,
}

impl Test {
    fn new() -> Test {
        Test { config: config(), store: Store::new(), world: World::new(), now: 1_000 }
    }

    fn transaction(&mut self, events: Vec<Event>) -> u16 {
        let mut replies: Vec<Reply> = Vec::new();
        loop {
            let server = Server::new(&self.config);
            match server.transactions(&self.store, &Some(HS_TOKEN.to_string()), &events, self.now, &replies) {
                Progress::Ask(request) => {
                    let reply = self.world.perform(&request);
                    replies.push(reply);
                }
                Progress::Done(store, status) => {
                    self.store = store;
                    return status;
                }
            }
        }
    }

    fn webhook(&mut self, message: Message) -> u16 {
        let payload = Some(message);
        let mut replies: Vec<Reply> = Vec::new();
        loop {
            let server = Server::new(&self.config);
            match server.rocketchat(&self.store, &payload, self.now, &replies) {
                Progress::Ask(request) => {
                    let reply = self.world.perform(&request);
                    replies.push(reply);
                }
                Progress::Done(store, status) => {
                    self.store = store;
                    return status;
                }
            }
        }
    }

    fn member(&mut self, room_id: &str, sender: &str, subject: &str, membership: MembershipState, prev: PrevSender) -> u16 {
        self.transaction(vec![Event::RoomMember(MemberEvent {
            room_id: room_id.to_string(),
            user_id: sender.to_string(),
            state_key: subject.to_string(),
            membership,
            prev_sender: prev,
        })])
    }

    fn say(&mut self, room_id: &str, sender: &str, text: &str) -> u16 {
        self.transaction(vec![Event::RoomMessage(MessageEvent {
            room_id: room_id.to_string(),
            user_id: sender.to_string(),
            content: MessageContent::Text(text.to_string()),
        })])
    }

    fn with_admin_room(mut self) -> Test {
        self.world.create_room(ADMIN_ROOM, SPEC_USER);
        self.member(ADMIN_ROOM, SPEC_USER, BOT, MembershipState::Invite, PrevSender::Absent);
        self.member(ADMIN_ROOM, BOT, BOT, MembershipState::Join, PrevSender::Text(SPEC_USER.to_string()));
        self
    }

    fn with_connected_admin_room(self) -> Test {
        let mut test = self.with_admin_room();
        test.say(ADMIN_ROOM, SPEC_USER, &format!("connect {} {} rc_id", RC_URL, RS_TOKEN));
        test
    }

    fn with_logged_in_user(mut self) -> Test {
        self.say(ADMIN_ROOM, SPEC_USER, "login spec_user secret");
        self
    }

    fn with_bridged_room(mut self, channel: &str, user: &str) -> Test {
        self.world.channels.push(Channel {
            id: format!("{}_id", channel),
            name: Some(channel.to_string()),
            usernames: vec![user.to_string()],
        });
        self.say(ADMIN_ROOM, SPEC_USER, &format!("bridge {}", channel));
        self
    }
}

fn message(channel: &str, user_id: &str, user_name: &str, text: &str) -> Message {
    Message {
        message_id: "spec_id".to_string(),
        token: Some(RS_TOKEN.to_string()),
        channel_id: format!("{}_id", channel),
        channel_name: Some(channel.to_string()),
        user_id: user_id.to_string(),
        user_name: user_name.to_string(),
        text: text.to_string(),
    }
}

fn text_var(name: VarName, value: &str) -> (VarName, VarValue) {
    (name, VarValue::Text(value.to_string()))
}

#[test]
fn the_bot_accepts_the_invite_and_sets_the_admin_room_up() {
    let test = Test::new().with_admin_room();

    assert_eq!(test.world.members(ADMIN_ROOM), vec![SPEC_USER.to_string(), BOT.to_string()]);
    assert_eq!(test.world.joins, vec![(ADMIN_ROOM.to_string(), BOT.to_string())]);
    assert_eq!(
        test.world.sent,
        vec![(
            ADMIN_ROOM.to_string(),
            BOT.to_string(),
            Body::Localized(i18n::Message {
                key: MessageKey::ConnectionInstructions,
                vars: vec![
                    text_var(VarName::AsUrl, "http://as.example"),
                    (VarName::ServerList, VarValue::Translated(MessageKey::NoRocketchatServerConnected)),
                ],
            }),
        )]
    );
    assert_eq!(
        test.world.rooms[ADMIN_ROOM].name,
        Some(Body::Localized(i18n::Message { key: MessageKey::AdminRoomDisplayName, vars: vec![] }))
    );
}

#[test]
fn the_bot_ignores_invites_from_other_homeservers() {
    let mut test = Test::new();
    test.world.create_room("!remote:other.example", "@carl:other.example");

    let status = test.member("!remote:other.example", "@carl:other.example", BOT, MembershipState::Invite, PrevSender::Absent);

    assert_eq!(status, 200);
    assert_eq!(test.world.joins, Vec::<(String, String)>::new());
    assert_eq!(test.world.asked, Vec::<String>::new());
}

#[test]
fn the_bot_accepts_invites_from_other_homeservers_when_told_to() {
    let mut test = Test::new();
    test.config.accept_remote_invites = true;
    test.world.create_room("!remote:other.example", "@carl:other.example");

    test.member("!remote:other.example", "@carl:other.example", BOT, MembershipState::Invite, PrevSender::Absent);

    assert_eq!(test.world.joins, vec![("!remote:other.example".to_string(), BOT.to_string())]);
}

#[test]
fn the_bot_leaves_a_room_that_its_inviter_did_not_create() {
    let mut test = Test::new();
    test.world.create_room(ADMIN_ROOM, "@creator:localhost");
    test.world.join(ADMIN_ROOM, BOT);
    test.world.leave(ADMIN_ROOM, "@creator:localhost");
    test.world.join(ADMIN_ROOM, SPEC_USER);

    test.member(ADMIN_ROOM, BOT, BOT, MembershipState::Join, PrevSender::Text(SPEC_USER.to_string()));

    assert_eq!(test.world.keys_sent(), vec![MessageKey::OnlyRoomCreatorCanInviteBotUser]);
    assert_eq!(test.world.members(ADMIN_ROOM), vec![SPEC_USER.to_string()]);
    assert_eq!(test.world.forgotten, vec![ADMIN_ROOM.to_string()]);
}

#[test]
fn the_bot_leaves_a_room_with_more_than_two_members() {
    let mut test = Test::new();
    test.world.create_room(ADMIN_ROOM, SPEC_USER);
    test.world.join(ADMIN_ROOM, "@other:localhost");
    test.world.join(ADMIN_ROOM, BOT);

    test.member(ADMIN_ROOM, BOT, BOT, MembershipState::Join, PrevSender::Text(SPEC_USER.to_string()));

    assert_eq!(test.world.keys_sent(), vec![MessageKey::TooManyMembersInRoom]);
    assert_eq!(test.world.members(ADMIN_ROOM), vec![SPEC_USER.to_string(), "@other:localhost".to_string()]);
    assert_eq!(test.world.forgotten, vec![ADMIN_ROOM.to_string()]);
}

#[test]
fn the_bot_tells_that_it_does_not_know_who_invited_it() {
    let mut test = Test::new();
    test.world.create_room(ADMIN_ROOM, SPEC_USER);
    test.world.join(ADMIN_ROOM, BOT);

    let status = test.member(ADMIN_ROOM, BOT, BOT, MembershipState::Join, PrevSender::Absent);

    assert_eq!(status, 200);
    assert_eq!(test.world.keys_sent(), vec![MessageKey::InviterUnknown]);
    assert_eq!(test.world.members(ADMIN_ROOM), vec![SPEC_USER.to_string(), BOT.to_string()]);
}

#[test]
fn the_bot_leaves_the_admin_room_when_another_user_joins() {
    let mut test = Test::new().with_admin_room();
    test.world.join(ADMIN_ROOM, "@other:localhost");
    test.world.sent.clear();

    test.member(ADMIN_ROOM, "@other:localhost", "@other:localhost", MembershipState::Join, PrevSender::Absent);

    assert_eq!(test.world.keys_sent(), vec![MessageKey::OtherUserJoined]);
    assert_eq!(test.world.members(ADMIN_ROOM), vec![SPEC_USER.to_string(), "@other:localhost".to_string()]);
    assert_eq!(test.world.forgotten, vec![ADMIN_ROOM.to_string()]);
}

#[test]
fn the_bot_leaves_the_admin_room_with_its_user() {
    let mut test = Test::new().with_admin_room();
    test.world.leave(ADMIN_ROOM, SPEC_USER);

    test.member(ADMIN_ROOM, SPEC_USER, SPEC_USER, MembershipState::Leave, PrevSender::Absent);

    assert_eq!(test.world.members(ADMIN_ROOM), Vec::<String>::new());
    assert_eq!(test.world.forgotten, vec![ADMIN_ROOM.to_string()]);
}

#[test]
fn the_bot_leaves_a_room_for_direct_messages_after_it_joined() {
    let mut test = Test::new();
    let room_id = "!other_userDMRocketChat_id:localhost";
    test.world.create_room(room_id, "@rocketchat_other_user_id_rc_id:localhost");
    test.world.join(room_id, SPEC_USER);
    test.world.join(room_id, BOT);

    test.member(room_id, BOT, BOT, MembershipState::Join, PrevSender::Absent);

    assert_eq!(
        test.world.members(room_id),
        vec!["@rocketchat_other_user_id_rc_id:localhost".to_string(), SPEC_USER.to_string()]
    );
    assert_eq!(test.world.sent, Vec::<(String, String, Body)>::new());
}

#[test]
fn other_changes_of_membership_are_passed_over() {
    let mut test = Test::new().with_admin_room();
    let asked = test.world.asked.len();

    test.member(ADMIN_ROOM, SPEC_USER, "@other:localhost", MembershipState::Invite, PrevSender::Absent);
    test.member(ADMIN_ROOM, BOT, BOT, MembershipState::Leave, PrevSender::Absent);
    test.member(ADMIN_ROOM, SPEC_USER, "@other:localhost", MembershipState::Ban, PrevSender::Absent);
    test.member(ADMIN_ROOM, SPEC_USER, BOT, MembershipState::Knock, PrevSender::Absent);
    test.transaction(vec![Event::Other]);

    assert_eq!(test.world.asked.len(), asked);
}

#[test]
fn connect_and_login() {
    let mut test = Test::new().with_admin_room();
    test.world.sent.clear();

    test.say(ADMIN_ROOM, SPEC_USER, "connect https://rc.example tok1 srv1");

    assert_eq!(
        test.store.rocketchat_servers,
        vec![RocketchatServer {
            id: "srv1".to_string(),
            rocketchat_url: "https://rc.example".to_string(),
            rocketchat_token: Some("tok1".to_string()),
        }]
    );
    assert_eq!(
        test.store.users_on_rocketchat_servers,
        vec![UserOnRocketchatServer {
            is_virtual_user: false,
            matrix_user_id: SPEC_USER.to_string(),
            rocketchat_server_id: "srv1".to_string(),
            rocketchat_user_id: None,
            rocketchat_auth_token: None,
            rocketchat_username: None,
        }]
    );
    assert_eq!(test.world.rooms[ADMIN_ROOM].topic, Some("https://rc.example".to_string()));
    assert_eq!(
        test.world.sent,
        vec![(
            ADMIN_ROOM.to_string(),
            BOT.to_string(),
            Body::Localized(i18n::Message {
                key: MessageKey::LoginInstructions,
                vars: vec![
                    text_var(VarName::RocketchatUrl, "https://rc.example"),
                    text_var(VarName::AsUrl, "http://as.example"),
                    text_var(VarName::MatrixUserId, SPEC_USER),
                ],
            }),
        )]
    );

    test.world.sent.clear();
    test.say(ADMIN_ROOM, SPEC_USER, "login alice hunter2");

    assert_eq!(
        test.store.users_on_rocketchat_servers,
        vec![UserOnRocketchatServer {
            is_virtual_user: false,
            matrix_user_id: SPEC_USER.to_string(),
            rocketchat_server_id: "srv1".to_string(),
            rocketchat_user_id: Some("alice_id".to_string()),
            rocketchat_auth_token: Some("alice_auth_token".to_string()),
            rocketchat_username: Some("alice".to_string()),
        }]
    );
    assert_eq!(
        test.world.sent,
        vec![(
            ADMIN_ROOM.to_string(),
            BOT.to_string(),
            Body::Localized(i18n::Message {
                key: MessageKey::LoginSuccessful,
                vars: vec![text_var(VarName::RocketchatUrl, "https://rc.example")],
            }),
        )]
    );

    test.world.sent.clear();
    test.say(ADMIN_ROOM, SPEC_USER, "help");
    assert_eq!(
        test.world.sent,
        vec![(
            ADMIN_ROOM.to_string(),
            BOT.to_string(),
            Body::Localized(i18n::Message {
                key: MessageKey::UsageInstructions,
                vars: vec![text_var(VarName::RocketchatUrl, "https://rc.example")],
            }),
        )]
    );
}

#[test]
fn the_words_of_a_password_are_put_together() {
    let mut test = Test::new().with_connected_admin_room();

    test.say(ADMIN_ROOM, SPEC_USER, "login spec_user hun  ter 2");

    assert_eq!(test.store.users_on_rocketchat_servers[0].rocketchat_user_id, Some("spec_user_id".to_string()));
    assert!(test.world.asked.iter().any(|request| request.contains("password: \"hunter2\"")));
}

#[test]
fn a_login_that_the_server_turns_down_stores_nothing() {
    let mut test = Test::new().with_connected_admin_room();
    test.world.sent.clear();

    let status = test.say(ADMIN_ROOM, SPEC_USER, "login spec_user wrong");

    assert_eq!(status, 200);
    assert_eq!(test.store.users_on_rocketchat_servers[0].rocketchat_user_id, None);
    assert_eq!(test.world.sent, Vec::<(String, String, Body)>::new());
}

#[test]
fn connect_in_a_connected_room_is_an_error() {
    let mut test = Test::new().with_connected_admin_room();
    test.world.sent.clear();

    test.say(ADMIN_ROOM, SPEC_USER, "connect http://other.example tok2 other");

    assert_eq!(test.world.keys_sent(), vec![MessageKey::RoomAlreadyConnected]);
    assert_eq!(test.store.rocketchat_servers.len(), 1);
}

#[test]
fn connect_without_a_token_needs_a_server_that_is_known() {
    let mut test = Test::new().with_admin_room();
    test.world.sent.clear();

    test.say(ADMIN_ROOM, SPEC_USER, "connect http://rc.example");

    assert_eq!(test.world.keys_sent(), vec![MessageKey::RocketchatTokenMissing]);
    assert_eq!(test.store.rocketchat_servers, Vec::<RocketchatServer>::new());
    assert_eq!(test.world.rooms[ADMIN_ROOM].topic, None);
}

#[test]
fn connect_without_a_token_takes_a_server_that_is_known() {
    let mut test = Test::new().with_admin_room();
    RocketchatServer::insert(
        &mut test.store,
        RocketchatServer {
            id: "rc_id".to_string(),
            rocketchat_url: RC_URL.to_string(),
            rocketchat_token: Some(RS_TOKEN.to_string()),
        },
    )
    .unwrap();
    test.world.sent.clear();

    test.say(ADMIN_ROOM, SPEC_USER, "connect http://rc.example");

    assert_eq!(test.world.keys_sent(), vec![MessageKey::LoginInstructions]);
    assert_eq!(test.world.rooms[ADMIN_ROOM].topic, Some(RC_URL.to_string()));
    assert_eq!(test.store.users_on_rocketchat_servers.len(), 1);
    assert_eq!(test.store.users_on_rocketchat_servers[0].rocketchat_server_id, "rc_id".to_string());
}

#[test]
fn connect_turns_down_what_the_store_cannot_take() {
    let mut test = Test::new().with_admin_room();
    RocketchatServer::insert(
        &mut test.store,
        RocketchatServer {
            id: "taken".to_string(),
            rocketchat_url: "http://taken.example".to_string(),
            rocketchat_token: Some("taken_token".to_string()),
        },
    )
    .unwrap();
    test.world.sent.clear();

    test.say(ADMIN_ROOM, SPEC_USER, "connect http://rc.example tok");
    test.say(ADMIN_ROOM, SPEC_USER, "connect http://rc.example tok Upper");
    test.say(ADMIN_ROOM, SPEC_USER, "connect http://rc.example tok a_server_id_that_is_too_long");
    test.say(ADMIN_ROOM, SPEC_USER, "connect http://rc.example tok srv-1");
    test.say(ADMIN_ROOM, SPEC_USER, "connect http://rc.example tok taken");
    test.say(ADMIN_ROOM, SPEC_USER, "connect http://taken.example tok srv1");
    test.say(ADMIN_ROOM, SPEC_USER, "connect http://rc.example taken_token srv1");

    assert_eq!(
        test.world.keys_sent(),
        vec![
            MessageKey::ConnectWithoutRocketchatServerId,
            MessageKey::ConnectWithInvalidRocketchatServerId,
            MessageKey::ConnectWithInvalidRocketchatServerId,
            MessageKey::ConnectWithInvalidRocketchatServerId,
            MessageKey::RocketchatServerIdAlreadyInUse,
            MessageKey::RocketchatServerAlreadyConnected,
            MessageKey::TokenAlreadyInUse,
        ]
    );
    assert_eq!(test.store.rocketchat_servers.len(), 1);
    assert_eq!(test.world.rooms[ADMIN_ROOM].topic, None);
    assert_eq!(
        test.world.sent[1].2,
        Body::Localized(i18n::Message {
            key: MessageKey::ConnectWithInvalidRocketchatServerId,
            vars: vec![
                text_var(VarName::RocketchatServerId, "Upper"),
                (VarName::MaxRocketchatServerIdLength, VarValue::Number(16)),
            ],
        })
    );
    assert_eq!(
        test.world.sent[5].2,
        Body::Localized(i18n::Message {
            key: MessageKey::RocketchatServerAlreadyConnected,
            vars: vec![
                text_var(VarName::RocketchatUrl, "http://taken.example"),
                text_var(VarName::MatrixUserId, SPEC_USER),
            ],
        })
    );
}

#[test]
fn connect_to_a_server_that_does_not_answer_stores_nothing() {
    let mut test = Test::new().with_admin_room();
    test.world.rocketchat_down = true;
    test.world.sent.clear();

    let status = test.say(ADMIN_ROOM, SPEC_USER, "connect http://rc.example tok srv1");

    assert_eq!(status, 200);
    assert_eq!(test.store.rocketchat_servers, Vec::<RocketchatServer>::new());
    assert_eq!(test.store.users_on_rocketchat_servers, Vec::<UserOnRocketchatServer>::new());
    assert_eq!(test.world.rooms[ADMIN_ROOM].topic, None);
    assert_eq!(test.world.sent, Vec::<(String, String, Body)>::new());
}

#[test]
fn the_first_word_selects_the_command() {
    let mut test = Test::new().with_admin_room();
    test.world.sent.clear();

    test.say(ADMIN_ROOM, SPEC_USER, "  help   me");
    assert_eq!(test.world.keys_sent(), vec![MessageKey::ConnectionInstructions]);

    test.world.sent.clear();
    let asked = test.world.asked.len();
    test.say(ADMIN_ROOM, SPEC_USER, "helpme");
    test.say(ADMIN_ROOM, SPEC_USER, "connected http://rc.example tok srv1");
    test.say(ADMIN_ROOM, SPEC_USER, "");
    assert_eq!(test.world.sent, Vec::<(String, String, Body)>::new());
    assert_eq!(test.store.rocketchat_servers, Vec::<RocketchatServer>::new());
    // each message costs the one question whether the room is an admin room
    assert_eq!(test.world.asked.len(), asked + 3);
}

#[test]
fn commands_that_need_a_server_fail_in_a_room_that_has_none() {
    let mut test = Test::new().with_admin_room();
    test.world.sent.clear();

    test.say(ADMIN_ROOM, SPEC_USER, "login spec_user secret");
    test.say(ADMIN_ROOM, SPEC_USER, "list");
    test.say(ADMIN_ROOM, SPEC_USER, "bridge spec_channel");
    test.say(ADMIN_ROOM, SPEC_USER, "unbridge spec_channel");

    assert_eq!(
        test.world.keys_sent(),
        vec![
            MessageKey::RoomNotConnected,
            MessageKey::RoomNotConnected,
            MessageKey::RoomNotConnected,
            MessageKey::RoomNotConnected,
        ]
    );
}

#[test]
fn the_help_lists_the_connected_servers() {
    let mut test = Test::new().with_connected_admin_room();
    RocketchatServer::insert(
        &mut test.store,
        RocketchatServer {
            id: "second".to_string(),
            rocketchat_url: "http://second.example".to_string(),
            rocketchat_token: Some("second_token".to_string()),
        },
    )
    .unwrap();
    RocketchatServer::insert(
        &mut test.store,
        RocketchatServer {
            id: "third".to_string(),
            rocketchat_url: "http://third.example".to_string(),
            rocketchat_token: None,
        },
    )
    .unwrap();
    test.world.create_room("!second_admin:localhost", SPEC_USER);
    test.world.join("!second_admin:localhost", BOT);
    test.world.sent.clear();

    test.say("!second_admin:localhost", SPEC_USER, "help");

    assert_eq!(
        test.world.sent,
        vec![(
            "!second_admin:localhost".to_string(),
            BOT.to_string(),
            Body::Localized(i18n::Message {
                key: MessageKey::ConnectionInstructions,
                vars: vec![
                    text_var(VarName::AsUrl, "http://as.example"),
                    text_var(VarName::ServerList, "* http://rc.example\n* http://second.example\n"),
                ],
            }),
        )]
    );
}

#[test]
fn the_list_marks_the_channels_of_the_user() {
    let mut test = Test::new()
        .with_connected_admin_room()
        .with_logged_in_user()
        .with_bridged_room("spec_channel", "spec_user");
    test.world.channels.push(Channel {
        id: "joined_channel_id".to_string(),
        name: Some("joined_channel".to_string()),
        usernames: vec!["other".to_string(), "spec_user".to_string()],
    });
    test.world.channels.push(Channel {
        id: "foreign_channel_id".to_string(),
        name: Some("foreign_channel".to_string()),
        usernames: vec!["other".to_string()],
    });
    test.world.channels.push(Channel {
        id: "direct_id".to_string(),
        name: None,
        usernames: vec!["other".to_string()],
    });
    test.world.sent.clear();

    test.say(ADMIN_ROOM, SPEC_USER, "list");

    assert_eq!(
        test.world.sent,
        vec![(
            ADMIN_ROOM.to_string(),
            BOT.to_string(),
            Body::Localized(i18n::Message {
                key: MessageKey::ListChannels,
                vars: vec![text_var(
                    VarName::ChannelList,
                    "*   **spec_channel**\n\n*   *joined_channel*\n\n*   foreign_channel\n\n*   direct_id\n\n",
                )],
            }),
        )]
    );
}

#[test]
fn bridge_new() {
    let mut test = Test::new().with_admin_room();
    test.say(ADMIN_ROOM, SPEC_USER, "connect https://rc.example tok1 srv1");
    test.say(ADMIN_ROOM, SPEC_USER, "login spec_user secret");
    test.world.channels.push(Channel {
        id: "spec_channel_id".to_string(),
        name: Some("spec_channel".to_string()),
        usernames: vec!["spec_user".to_string(), "bob".to_string()],
    });
    test.world.sent.clear();
    test.world.invites.clear();
    test.world.joins.clear();

    test.say(ADMIN_ROOM, SPEC_USER, "bridge spec_channel");

    assert_eq!(
        test.world.aliases.get("#rocketchat_srv1_spec_channel_id:localhost"),
        Some(&CHANNEL_ROOM.to_string())
    );
    assert_eq!(
        test.world.rooms[CHANNEL_ROOM].canonical_alias,
        Some("#rocketchat_srv1_spec_channel_id:localhost".to_string())
    );
    assert_eq!(test.world.rooms[CHANNEL_ROOM].creator, BOT.to_string());
    assert_eq!(test.world.rooms[CHANNEL_ROOM].name, Some(Body::Plain("spec_channel".to_string())));
    assert_eq!(
        test.world.power_levels,
        vec![(CHANNEL_ROOM.to_string(), BOT.to_string(), 100, SPEC_USER.to_string(), 50, 0, 50, 0)]
    );
    assert_eq!(
        test.world.invites,
        vec![
            (CHANNEL_ROOM.to_string(), SPEC_USER.to_string(), BOT.to_string()),
            (CHANNEL_ROOM.to_string(), "@rocketchat_spec_user_id_srv1:localhost".to_string(), BOT.to_string()),
            (CHANNEL_ROOM.to_string(), "@rocketchat_bob_id_srv1:localhost".to_string(), BOT.to_string()),
        ]
    );
    assert_eq!(
        test.world.joins,
        vec![
            (CHANNEL_ROOM.to_string(), "@rocketchat_spec_user_id_srv1:localhost".to_string()),
            (CHANNEL_ROOM.to_string(), "@rocketchat_bob_id_srv1:localhost".to_string()),
        ]
    );
    assert_eq!(
        test.world.display_names,
        vec![
            ("@rocketchat_spec_user_id_srv1:localhost".to_string(), "spec_user".to_string()),
            ("@rocketchat_bob_id_srv1:localhost".to_string(), "bob".to_string()),
        ]
    );
    assert_eq!(
        test.world.registered,
        vec![
            "@rocketchat_spec_user_id_srv1:localhost".to_string(),
            "@rocketchat_bob_id_srv1:localhost".to_string(),
        ]
    );
    assert_eq!(
        test.world.sent,
        vec![(
            ADMIN_ROOM.to_string(),
            BOT.to_string(),
            Body::Localized(i18n::Message {
                key: MessageKey::RoomSuccessfullyBridged,
                vars: vec![text_var(VarName::ChannelName, "spec_channel")],
            }),
        )]
    );
    assert_eq!(test.store.users_on_rocketchat_servers.len(), 3);
    assert_eq!(
        test.store.users_on_rocketchat_servers[2],
        UserOnRocketchatServer {
            is_virtual_user: true,
            matrix_user_id: "@rocketchat_bob_id_srv1:localhost".to_string(),
            rocketchat_server_id: "srv1".to_string(),
            rocketchat_user_id: Some("bob_id".to_string()),
            rocketchat_auth_token: None,
            rocketchat_username: Some("bob".to_string()),
        }
    );
}

#[test]
fn bridge_turns_down_channels_that_the_user_cannot_have() {
    let mut test = Test::new().with_connected_admin_room().with_logged_in_user();
    test.world.channels.push(Channel {
        id: "foreign_channel_id".to_string(),
        name: Some("foreign_channel".to_string()),
        usernames: vec!["other".to_string()],
    });
    test.world.sent.clear();

    test.say(ADMIN_ROOM, SPEC_USER, "bridge nonexisting_channel");
    test.say(ADMIN_ROOM, SPEC_USER, "bridge foreign_channel");

    assert_eq!(
        test.world.sent,
        vec![
            (
                ADMIN_ROOM.to_string(),
                BOT.to_string(),
                Body::Localized(i18n::Message {
                    key: MessageKey::RocketchatChannelNotFound,
                    vars: vec![text_var(VarName::ChannelName, "nonexisting_channel")],
                }),
            ),
            (
                ADMIN_ROOM.to_string(),
                BOT.to_string(),
                Body::Localized(i18n::Message {
                    key: MessageKey::RocketchatJoinFirst,
                    vars: vec![text_var(VarName::ChannelName, "foreign_channel")],
                }),
            ),
        ]
    );
    assert_eq!(test.world.rooms.len(), 1);
}

#[test]
fn bridge_of_a_bridged_channel_invites_another_user_and_turns_down_one_who_is_in_the_room() {
    let mut test = Test::new()
        .with_connected_admin_room()
        .with_logged_in_user()
        .with_bridged_room("spec_channel", "spec_user");
    test.world.sent.clear();

    test.say(ADMIN_ROOM, SPEC_USER, "bridge spec_channel");

    assert_eq!(test.world.keys_sent(), vec![MessageKey::RocketchatChannelAlreadyBridged]);

    test.world.leave(CHANNEL_ROOM, SPEC_USER);
    test.world.sent.clear();
    test.world.invites.clear();

    test.say(ADMIN_ROOM, SPEC_USER, "bridge spec_channel");

    assert_eq!(test.world.keys_sent(), vec![MessageKey::RoomSuccessfullyBridged]);
    assert_eq!(test.world.invites, vec![(CHANNEL_ROOM.to_string(), SPEC_USER.to_string(), BOT.to_string())]);
    assert_eq!(test.world.rooms.len(), 2);
}

#[test]
fn unbridge_non_empty() {
    let mut test = Test::new()
        .with_connected_admin_room()
        .with_logged_in_user()
        .with_bridged_room("spec_channel", "spec_user");
    test.world.sent.clear();

    test.say(ADMIN_ROOM, SPEC_USER, "unbridge spec_channel");

    assert_eq!(
        test.world.sent,
        vec![(
            ADMIN_ROOM.to_string(),
            BOT.to_string(),
            Body::Localized(i18n::Message {
                key: MessageKey::RoomNotEmpty,
                vars: vec![
                    text_var(VarName::ChannelName, "spec_channel"),
                    text_var(VarName::Users, SPEC_USER),
                ],
            }),
        )]
    );
    assert_eq!(
        test.world.aliases.get("#rocketchat_rc_id_spec_channel_id:localhost"),
        Some(&CHANNEL_ROOM.to_string())
    );
    assert_eq!(test.world.deleted_aliases, Vec::<String>::new());
}

#[test]
fn unbridge_names_all_the_users_that_are_left() {
    let mut test = Test::new()
        .with_connected_admin_room()
        .with_logged_in_user()
        .with_bridged_room("spec_channel", "spec_user");
    test.world.join(CHANNEL_ROOM, "@other:localhost");
    test.world.sent.clear();

    test.say(ADMIN_ROOM, SPEC_USER, "unbridge spec_channel");

    assert_eq!(
        test.world.sent[0].2,
        Body::Localized(i18n::Message {
            key: MessageKey::RoomNotEmpty,
            vars: vec![
                text_var(VarName::ChannelName, "spec_channel"),
                text_var(VarName::Users, "@spec_user:localhost, @other:localhost"),
            ],
        })
    );
}

#[test]
fn unbridge_of_a_channel_that_is_not_bridged_is_an_error() {
    let mut test = Test::new().with_connected_admin_room().with_logged_in_user();
    test.world.channels.push(Channel {
        id: "spec_channel_id".to_string(),
        name: Some("spec_channel".to_string()),
        usernames: vec!["spec_user".to_string()],
    });
    test.world.sent.clear();

    test.say(ADMIN_ROOM, SPEC_USER, "unbridge spec_channel");
    test.say(ADMIN_ROOM, SPEC_USER, "unbridge nonexisting_channel");

    assert_eq!(
        test.world.keys_sent(),
        vec![MessageKey::UnbridgeOfNotBridgedRoom, MessageKey::UnbridgeOfNotBridgedRoom]
    );
}

#[test]
fn unbridge_clears_the_alias_of_the_admin_room_and_deletes_the_alias_of_the_channel() {
    let mut test = Test::new()
        .with_connected_admin_room()
        .with_logged_in_user()
        .with_bridged_room("spec_channel", "spec_user");
    test.world.leave(CHANNEL_ROOM, SPEC_USER);
    test.world.rooms.get_mut(ADMIN_ROOM).unwrap().canonical_alias = Some("#admin:localhost".to_string());
    test.world.sent.clear();

    test.say(ADMIN_ROOM, SPEC_USER, "unbridge spec_channel");

    assert_eq!(
        test.world.sent,
        vec![(
            ADMIN_ROOM.to_string(),
            BOT.to_string(),
            Body::Localized(i18n::Message {
                key: MessageKey::RoomSuccessfullyUnbridged,
                vars: vec![text_var(VarName::ChannelName, "spec_channel")],
            }),
        )]
    );
    assert_eq!(test.world.rooms[ADMIN_ROOM].canonical_alias, None);
    assert_eq!(test.world.deleted_aliases, vec!["#rocketchat_rc_id_spec_channel_id:localhost".to_string()]);
    assert_eq!(test.world.aliases.get("#rocketchat_rc_id_spec_channel_id:localhost"), None);
}

#[test]
fn successfully_forwards_a_text_message_from_rocketchat_to_matrix_when_the_user_is_not_registered_on_matrix() {
    let mut test = Test::new()
        .with_connected_admin_room()
        .with_logged_in_user()
        .with_bridged_room("spec_channel", "spec_user");

    test.webhook(message("spec_channel", "new_user_id", "new_spec_user", "spec_message"));

    // the admin room invite is the bot's own join; the invites are those of the bridged room
    assert!(test.world.invites[0].1.contains("@spec_user:localhost"));
    assert!(test.world.invites[1].1.contains("@rocketchat_spec_user_id_rc_id:localhost"));
    assert!(test.world.invites[2].1.contains("@rocketchat_new_user_id_rc_id:localhost"));
    assert!(test.world.joins.contains(&(CHANNEL_ROOM.to_string(), "@rocketchat_new_user_id_rc_id:localhost".to_string())));

    assert!(test.world.display_names[0].1.contains("spec_user"));
    assert!(test.world.display_names[1].1.contains("new_spec_user"));

    // welcome, connect, login and room bridged messages come first
    assert_eq!(test.world.sent.len(), 5);
    assert_eq!(
        test.world.sent[4],
        (
            CHANNEL_ROOM.to_string(),
            "@rocketchat_new_user_id_rc_id:localhost".to_string(),
            Body::Plain("spec_message".to_string()),
        )
    );

    // the bot, the user who bridged the channel and two virtual user are in the channel
    let user_ids = test.world.members(CHANNEL_ROOM);
    assert_eq!(user_ids.len(), 4);

    let virtual_spec_user = "@rocketchat_spec_user_id_rc_id:localhost";
    let user_ids = user_ids
        .into_iter()
        .filter(|id| id != BOT && id != SPEC_USER && id != virtual_spec_user)
        .collect::<Vec<String>>();
    let new_user_id = user_ids.iter().next().unwrap();

    // the virtual user was create with the Rocket.Chat user ID
    let user_on_rocketchat = UserOnRocketchatServer::find(&test.store, new_user_id, "rc_id").unwrap();
    assert_eq!(user_on_rocketchat.rocketchat_user_id.unwrap(), "new_user_id".to_string());

    let mut second_message = message("spec_channel", "new_user_id", "new_spec_user", "spec_message 2");
    second_message.message_id = "spec_id_2".to_string();
    test.webhook(second_message);

    // make sure the display name is only set once
    assert_eq!(test.world.display_names.len(), 2);

    assert_eq!(test.world.sent.len(), 6);
    assert_eq!(test.world.sent[5].2, Body::Plain("spec_message 2".to_string()));
}

#[test]
fn successfully_forwards_a_text_message_from_rocketchat_to_matrix_when_the_user_is_registered_on_matrix() {
    let mut test = Test::new()
        .with_connected_admin_room()
        .with_logged_in_user()
        .with_bridged_room("spec_channel", "spec_user");

    test.webhook(message("spec_channel", "spec_user_id", "spec_user", "spec_message"));

    assert_eq!(test.world.invites.len(), 2);
    assert!(test.world.invites[0].1.contains("@spec_user:localhost"));
    assert!(test.world.invites[1].1.contains("@rocketchat_spec_user_id_rc_id:localhost"));

    // the join of the bot into the admin room, and the join of the virtual user
    assert_eq!(test.world.joins.len(), 2);

    assert_eq!(test.world.display_names.len(), 1);
    assert!(test.world.display_names[0].1.contains("spec_user"));

    assert_eq!(test.world.sent.len(), 5);
    assert_eq!(test.world.sent[4].2, Body::Plain("spec_message".to_string()));

    // the bot, the user who bridged the channel and the virtual user are in the channel
    let user_ids = test.world.members(CHANNEL_ROOM);
    assert_eq!(user_ids.len(), 3);

    let user_ids = user_ids.into_iter().filter(|id| id != BOT && id != SPEC_USER).collect::<Vec<String>>();
    let new_user_id = user_ids.iter().next().unwrap();

    // the virtual user was create with the Rocket.Chat user ID because the exiting matrix user
    // cannot be used since the application service can only impersonate virtual users.
    let user_on_rocketchat = UserOnRocketchatServer::find(&test.store, new_user_id, "rc_id").unwrap();
    assert_eq!(user_on_rocketchat.rocketchat_user_id.unwrap(), "spec_user_id".to_string());

    let mut second_message = message("spec_channel", "spec_user_id", "spec_user", "spec_message 2");
    second_message.message_id = "spec_id_2".to_string();
    test.webhook(second_message);

    // make sure the display name is only set once
    assert_eq!(test.world.display_names.len(), 1);

    assert_eq!(test.world.sent.len(), 6);
    assert_eq!(test.world.sent[5].2, Body::Plain("spec_message 2".to_string()));
}

#[test]
fn update_the_display_name_when_the_user_changed_it_on_the_rocketchat_server() {
    let mut test = Test::new()
        .with_connected_admin_room()
        .with_logged_in_user()
        .with_bridged_room("spec_channel", "spec_user");

    test.webhook(message("spec_channel", "virtual_spec_user_id", "virtual_spec_user", "spec_message"));

    assert!(test.world.display_names[0].1.contains("spec_user"));
    assert!(test.world.display_names[1].1.contains("virtual_spec_user"));

    let mut second_message_with_new_username =
        message("spec_channel", "virtual_spec_user_id", "virtual_spec_user_new", "spec_message 2");
    second_message_with_new_username.message_id = "spec_id_2".to_string();
    test.webhook(second_message_with_new_username);

    assert_eq!(test.world.display_names.len(), 3);
    assert!(test.world.display_names[2].1.contains("spec_user_new"));

    let user_on_rocketchat_server =
        UserOnRocketchatServer::find_by_rocketchat_user_id(&test.store, "rc_id", "virtual_spec_user_id", true).unwrap();
    assert_eq!(user_on_rocketchat_server.rocketchat_username.unwrap(), "virtual_spec_user_new".to_string());
}

#[test]
fn message_is_forwarded_even_if_setting_the_display_name_failes() {
    let mut test = Test::new();
    test.world.fail_display_name = true;
    let mut test = test.with_connected_admin_room().with_logged_in_user().with_bridged_room("spec_channel", "spec_user");

    test.webhook(message("spec_channel", "virtual_spec_user_id", "virtual_spec_user", "spec_message"));

    assert_eq!(test.world.display_names, Vec::<(String, String)>::new());
    assert_eq!(test.world.sent.len(), 5);
    assert_eq!(test.world.sent[4].2, Body::Plain("spec_message".to_string()));
}

#[test]
fn a_new_name_that_cannot_be_set_is_tried_again_with_the_next_message() {
    let mut test = Test::new()
        .with_connected_admin_room()
        .with_logged_in_user()
        .with_bridged_room("spec_channel", "spec_user");
    test.webhook(message("spec_channel", "new_user_id", "new_spec_user", "hi"));
    test.world.fail_display_name = true;

    let status = test.webhook(message("spec_channel", "new_user_id", "new_spec_user_2", "hi again"));

    assert_eq!(status, 200);
    assert_eq!(test.world.plain_texts(), vec!["hi".to_string(), "hi again".to_string()]);
    let stored = UserOnRocketchatServer::find_by_rocketchat_user_id(&test.store, "rc_id", "new_user_id", true).unwrap();
    assert_eq!(stored.rocketchat_username, Some("new_spec_user".to_string()));

    test.world.fail_display_name = false;
    test.webhook(message("spec_channel", "new_user_id", "new_spec_user_2", "third"));

    let names = test
        .world
        .display_names
        .iter()
        .filter(|(user_id, _)| user_id == "@rocketchat_new_user_id_rc_id:localhost")
        .map(|(_, name)| name.clone())
        .collect::<Vec<String>>();
    assert_eq!(names, vec!["new_spec_user".to_string(), "new_spec_user_2".to_string()]);
    let stored = UserOnRocketchatServer::find_by_rocketchat_user_id(&test.store, "rc_id", "new_user_id", true).unwrap();
    assert_eq!(stored.rocketchat_username, Some("new_spec_user_2".to_string()));
}

#[test]
fn no_message_is_forwarded_when_inviting_the_user_failes() {
    let mut test = Test::new();
    test.world.fail_invite_of = Some("new_user".to_string());
    let mut test = test.with_connected_admin_room().with_logged_in_user().with_bridged_room("spec_channel", "spec_user");
    let stored = test.store.users_on_rocketchat_servers.len();

    let status = test.webhook(message("spec_channel", "new_user_id", "new_spec_user", "spec_message"));

    // no message is forwarded
    assert_eq!(test.world.sent.len(), 4);
    assert_eq!(test.world.plain_texts(), Vec::<String>::new());
    assert_eq!(status, 500);
    // and the store is as it was
    assert_eq!(test.store.users_on_rocketchat_servers.len(), stored);
}

#[test]
fn ignore_messages_to_a_room_that_is_not_bridged() {
    let mut test = Test::new().with_connected_admin_room().with_logged_in_user();

    let status = test.webhook(message("not_bridged_channel", "new_user_id", "new_spec_user", "spec_message"));

    // no message is forwarded
    assert_eq!(status, 200);
    assert_eq!(test.world.sent.len(), 3);
    assert_eq!(test.world.registered, Vec::<String>::new());
}

#[test]
fn ignore_messages_forwarded_from_rocketchat_if_the_non_virtual_user_just_sent_a_message_on_matrix_to_avoid_loops() {
    let mut test = Test::new()
        .with_connected_admin_room()
        .with_logged_in_user()
        .with_bridged_room("spec_channel", "spec_user");

    test.say(CHANNEL_ROOM, SPEC_USER, "message from Matrix");

    assert_eq!(
        test.world.posted,
        vec![(
            RC_URL.to_string(),
            "spec_user_id".to_string(),
            "spec_channel_id".to_string(),
            "message from Matrix".to_string(),
        )]
    );
    assert_eq!(User::find(&test.store, SPEC_USER).unwrap().last_message_sent, 1_000);

    let status = test.webhook(message("spec_channel", "spec_user_id", "spec_user", "spec_message"));

    assert_eq!(status, 200);
    assert_eq!(test.world.sent.len(), 4);
    assert_eq!(test.world.plain_texts(), Vec::<String>::new());
}

#[test]
fn the_window_closes() {
    let mut test = Test::new()
        .with_connected_admin_room()
        .with_logged_in_user()
        .with_bridged_room("spec_channel", "spec_user");
    test.say(CHANNEL_ROOM, SPEC_USER, "hello");

    test.now = 1_001;
    test.webhook(message("spec_channel", "spec_user_id", "spec_user", "hello"));
    test.now = 1_005;
    test.webhook(message("spec_channel", "spec_user_id", "spec_user", "hello"));
    assert_eq!(test.world.plain_texts(), Vec::<String>::new());

    test.now = 1_006;
    test.webhook(message("spec_channel", "spec_user_id", "spec_user", "hello"));
    assert_eq!(test.world.plain_texts(), vec!["hello".to_string()]);
}

#[test]
fn messages_of_virtual_users_and_of_users_who_are_not_logged_in_are_not_posted() {
    let mut test = Test::new()
        .with_connected_admin_room()
        .with_logged_in_user()
        .with_bridged_room("spec_channel", "spec_user");
    test.world.join(CHANNEL_ROOM, "@other:localhost");

    test.say(CHANNEL_ROOM, "@rocketchat_spec_user_id_rc_id:localhost", "echo");
    test.say(CHANNEL_ROOM, "@other:localhost", "hello");
    test.transaction(vec![Event::RoomMessage(MessageEvent {
        room_id: CHANNEL_ROOM.to_string(),
        user_id: SPEC_USER.to_string(),
        content: MessageContent::Other,
    })]);

    assert_eq!(test.world.posted, Vec::<(String, String, String, String)>::new());
    assert_eq!(User::find(&test.store, SPEC_USER), None);
}

#[test]
fn do_not_forward_messages_when_the_channel_was_bridged_but_is_unbridged_now() {
    let mut test = Test::new();
    test.world.fail_display_name = true;
    let mut test = test.with_connected_admin_room().with_logged_in_user().with_bridged_room("spec_channel", "spec_user");

    test.world.leave(CHANNEL_ROOM, SPEC_USER);

    test.say(ADMIN_ROOM, SPEC_USER, "unbridge spec_channel");

    test.webhook(message("spec_channel", "virtual_spec_user_id", "virtual_spec_user", "spec_message"));

    // welcome, connect, login, room bridged and room unbridged messages
    assert_eq!(test.world.sent.len(), 5);
    assert_eq!(test.world.keys_sent()[4], MessageKey::RoomSuccessfullyUnbridged);
    assert_eq!(test.world.plain_texts(), Vec::<String>::new());
}

#[test]
fn rocketchat_sends_mal_formatted_json() {
    let test = Test::new();
    let payload = "bad_json";

    let progress = Server::new(&test.config).rocketchat(&test.store, &payload::read(payload), test.now, &Vec::new());

    assert_eq!(progress, Progress::Done(Store::new(), 422));
}

#[test]
fn a_payload_that_holds_a_message_is_read() {
    let payload = "{\"message_id\":\"spec_id\",\"token\":\"rt\",\"channel_id\":\"spec_channel_id\",\"channel_name\":\"spec_channel\",\"user_id\":\"new_user_id\",\"user_name\":\"new_spec_user\",\"text\":\"spec_message\"}";

    assert_eq!(payload::read(payload), Some(message("spec_channel", "new_user_id", "new_spec_user", "spec_message")));
    assert_eq!(payload::read("{}"), None);
}

#[test]
fn returns_unauthorized_when_the_rs_token_is_missing() {
    let test = Test::new();
    let mut payload = message("spec_channel", "virtual_spec_user_id", "virtual_spec_user", "spec_message");
    payload.token = None;

    let progress = Server::new(&test.config).rocketchat(&test.store, &Some(payload), test.now, &Vec::new());

    assert_eq!(progress, Progress::Done(Store::new(), 401));
}

#[test]
fn returns_forbidden_when_the_rs_token_does_not_match_a_server() {
    let test = Test::new().with_connected_admin_room();
    let mut payload = message("spec_channel", "virtual_spec_user_id", "virtual_spec_user", "spec_message");
    payload.token = Some("wrong_token".to_string());

    let mut test = test;
    let status = test.webhook(payload);

    assert_eq!(status, 403);
}

#[test]
fn an_error_that_cannot_be_told_is_still_answered_with_ok() {
    let mut test = Test::new().with_admin_room();
    test.world.fail_send = true;

    let status = test.say(ADMIN_ROOM, SPEC_USER, "login spec_user secret");

    assert_eq!(status, 200);
    assert_eq!(test.world.sent.len(), 1);
}

#[test]
fn the_events_after_a_failed_one_are_handled_and_the_failed_one_is_undone() {
    let mut test = Test::new().with_connected_admin_room().with_logged_in_user();
    test.world.channels.push(Channel {
        id: "spec_channel_id".to_string(),
        name: Some("spec_channel".to_string()),
        usernames: vec!["spec_user".to_string(), "new_user".to_string()],
    });
    test.world.fail_invite_of = Some("new_user".to_string());
    test.world.sent.clear();
    let say = |text: &str| {
        Event::RoomMessage(MessageEvent {
            room_id: ADMIN_ROOM.to_string(),
            user_id: SPEC_USER.to_string(),
            content: MessageContent::Text(text.to_string()),
        })
    };

    let status = test.transaction(vec![say("help"), say("bridge spec_channel"), say("help")]);

    assert_eq!(status, 200);
    // the help of the first event; the second failed with an error that has no message;
    // the help of the third
    assert_eq!(test.world.keys_sent(), vec![MessageKey::UsageInstructions, MessageKey::UsageInstructions]);
    // the virtual users of the failed event are not kept
    assert_eq!(test.store.users_on_rocketchat_servers.len(), 1);
}

#[test]
fn an_event_is_handled_after_the_error_of_the_one_before_it_was_told() {
    let mut test = Test::new().with_connected_admin_room().with_logged_in_user();
    test.world.sent.clear();
    let say = |text: &str| {
        Event::RoomMessage(MessageEvent {
            room_id: ADMIN_ROOM.to_string(),
            user_id: SPEC_USER.to_string(),
            content: MessageContent::Text(text.to_string()),
        })
    };

    // the room is connected already: the first event fails with an error that has a message
    let status = test.transaction(vec![say(&format!("connect {} other_token other_id", RC_URL)), say("help")]);

    assert_eq!(status, 200);
    assert_eq!(test.world.keys_sent(), vec![MessageKey::RoomAlreadyConnected, MessageKey::UsageInstructions]);
    assert_eq!(test.world.sent[0].0, ADMIN_ROOM);
    assert_eq!(test.world.sent[0].1, BOT);
    assert_eq!(test.store.rocketchat_servers.len(), 1);
}

#[test]
fn a_transaction_ends_where_an_error_cannot_be_told() {
    let mut test = Test::new().with_connected_admin_room().with_logged_in_user();
    test.world.sent.clear();
    test.world.fail_send = true;
    let say = |text: &str| {
        Event::RoomMessage(MessageEvent {
            room_id: ADMIN_ROOM.to_string(),
            user_id: SPEC_USER.to_string(),
            content: MessageContent::Text(text.to_string()),
        })
    };
    let asked_before = test.world.asked.len();

    test.transaction(vec![say(&format!("connect {} other_token other_id", RC_URL)), say("list")]);

    // nothing of the second event was asked for: no channels were listed
    let asked: Vec<String> = test.world.asked[asked_before..].to_vec();
    assert!(asked.iter().all(|request| !request.starts_with("ChannelsList")));
    assert!(asked.iter().any(|request| request.starts_with("SendTextMessageEvent")));
}

#[test]
fn connect_keeps_nothing_when_the_topic_cannot_be_set() {
    let config = config();
    let handler = matrix_rocketchat::handlers::events::CommandHandler::new(&config);
    let event = MessageEvent {
        room_id: ADMIN_ROOM.to_string(),
        user_id: SPEC_USER.to_string(),
        content: MessageContent::Text(format!("connect {} {} rc_id", RC_URL, RS_TOKEN)),
    };
    // the topic of the room: none; the probe of the server: done; the new topic: refused
    let replies = vec![Reply::Done, Reply::Done, Reply::Failed("no power".to_string())];
    let mut calls = matrix_rocketchat::api::Transcript::new(&replies);
    let mut store = Store::new();

    let result = handler.connect(&mut store, &mut calls, &event, &format!("connect {} {} rc_id", RC_URL, RS_TOKEN));

    assert!(matches!(result, Err(Halt::Fail(_))));
    assert_eq!(store, Store::new());
}

#[test]
fn connect_keeps_nothing_when_the_help_cannot_be_sent() {
    let config = config();
    let handler = matrix_rocketchat::handlers::events::CommandHandler::new(&config);
    let event = MessageEvent {
        room_id: ADMIN_ROOM.to_string(),
        user_id: SPEC_USER.to_string(),
        content: MessageContent::Text(format!("connect {} {} rc_id", RC_URL, RS_TOKEN)),
    };
    // the topic of the room: none; the probe; the new topic; the topic again, for the help;
    // the sending of the help: refused
    let replies = vec![
        Reply::Done,
        Reply::Done,
        Reply::Done,
        Reply::Text(RC_URL.to_string()),
        Reply::Failed("no power".to_string()),
    ];
    let mut calls = matrix_rocketchat::api::Transcript::new(&replies);
    let mut store = Store::new();

    let result = handler.connect(&mut store, &mut calls, &event, &format!("connect {} {} rc_id", RC_URL, RS_TOKEN));

    assert!(matches!(result, Err(Halt::Fail(_))));
    assert_eq!(store, Store::new());

    // with the help sent, the server and the user's record are kept
    let replies = vec![Reply::Done, Reply::Done, Reply::Done, Reply::Text(RC_URL.to_string()), Reply::Done];
    let mut calls = matrix_rocketchat::api::Transcript::new(&replies);
    let result = handler.connect(&mut store, &mut calls, &event, &format!("connect {} {} rc_id", RC_URL, RS_TOKEN));
    assert_eq!(result, Ok(()));
    assert_eq!(store.rocketchat_servers.len(), 1);
    assert_eq!(store.users_on_rocketchat_servers.len(), 1);
}

#[test]
fn a_virtual_user_who_is_registered_already_is_registered() {
    let mut test = Test::new().with_connected_admin_room().with_logged_in_user().with_bridged_room("spec_channel", "spec_user");
    // the homeserver knows the user, the store does not
    test.world.registered.push("@rocketchat_new_user_id_rc_id:localhost".to_string());

    let status = test.webhook(message("spec_channel", "new_user_id", "new_spec_user", "spec_message"));

    assert_eq!(status, 200);
    assert_eq!(test.world.plain_texts(), vec!["spec_message".to_string()]);
    assert!(UserOnRocketchatServer::find(&test.store, "@rocketchat_new_user_id_rc_id:localhost", "rc_id").is_ok());
}

#[test]
fn a_refusal_with_another_code_is_a_failure() {
    let replies = vec![Reply::Refused("M_EXCLUSIVE".to_string(), "not yours".to_string())];
    let mut calls = matrix_rocketchat::api::Transcript::new(&replies);

    let result = matrix_rocketchat::api::MatrixApi::register(&mut calls, "someone");

    assert!(result.is_err());

    let replies = vec![Reply::Refused("M_USER_IN_USE".to_string(), "taken".to_string())];
    let mut calls = matrix_rocketchat::api::Transcript::new(&replies);
    assert_eq!(matrix_rocketchat::api::MatrixApi::register(&mut calls, "someone"), Ok(()));

    // any other call fails on a refusal, whatever the code
    let replies = vec![Reply::Refused("M_USER_IN_USE".to_string(), "taken".to_string())];
    let mut calls = matrix_rocketchat::api::Transcript::new(&replies);
    assert!(matrix_rocketchat::api::MatrixApi::join(&mut calls, "!a:localhost", "@b:localhost").is_err());
}

const DM_ROOM: &str = "!other_userDMRocketChat_id:localhost";

fn direct_message(text: &str) -> Message {
    Message {
        message_id: "spec_id_1".to_string(),
        token: Some(RS_TOKEN.to_string()),
        channel_id: "spec_user_id_other_user_id".to_string(),
        channel_name: None,
        user_id: "other_user_id".to_string(),
        user_name: "other_user".to_string(),
        text: text.to_string(),
    }
}

fn with_direct_messages(mut test: Test) -> Test {
    test.world.channels.push(Channel {
        id: "spec_user_id_other_user_id".to_string(),
        name: None,
        usernames: vec!["spec_user".to_string(), "other_user".to_string()],
    });
    test
}

#[test]
fn successfully_forwards_a_direct_message_to_rocketchat() {
    let mut test = with_direct_messages(Test::new().with_connected_admin_room().with_logged_in_user());

    // direct message from Rocket.Chat to trigger the room creation
    let status = test.webhook(direct_message("Hey there"));
    assert_eq!(status, 200);

    test.member(DM_ROOM, SPEC_USER, SPEC_USER, MembershipState::Join, PrevSender::Absent);

    // welcome, connect and login message, then the direct message
    assert_eq!(test.world.sent.len(), 4);
    let (room_id, sender_id, body) = &test.world.sent[3];
    assert_eq!(room_id, DM_ROOM);
    assert_eq!(sender_id, "@rocketchat_other_user_id_rc_id:localhost");
    match body {
        Body::Plain(text) => assert!(text.contains("Hey there")),
        other => panic!("not a plain text: {:?}", other),
    }

    test.say(DM_ROOM, SPEC_USER, "It's so nice to hear from you after such a long time");

    assert_eq!(test.world.posted.len(), 1);
    let (rocketchat_url, user_id, channel_id, text) = &test.world.posted[0];
    assert_eq!(rocketchat_url, RC_URL);
    assert_eq!(user_id, "spec_user_id");
    assert_eq!(channel_id, "spec_user_id_other_user_id");
    assert!(text.contains("It's so nice to hear from you after such a long time"));
}

#[test]
fn the_room_of_a_conversation_is_made_once_for_the_user_who_is_written_to() {
    let mut test = with_direct_messages(Test::new().with_connected_admin_room().with_logged_in_user());

    test.webhook(direct_message("Hey there"));
    test.webhook(direct_message("Are you there?"));

    assert_eq!(test.world.rooms.len(), 2);
    let room = &test.world.rooms[DM_ROOM];
    assert_eq!(room.creator, BOT);
    assert_eq!(room.name, Some(Body::Plain("other_userDMRocketChat".to_string())));
    assert_eq!(
        room.canonical_alias,
        Some("#rocketchat_rc_id_spec_user_id_other_user_id:localhost".to_string())
    );
    assert_eq!(
        room.members,
        vec![BOT.to_string(), SPEC_USER.to_string(), "@rocketchat_other_user_id_rc_id:localhost".to_string()]
    );
    assert_eq!(test.world.plain_texts(), vec!["Hey there".to_string(), "Are you there?".to_string()]);
}

#[test]
fn a_direct_message_to_nobody_the_bridge_knows_is_passed_over() {
    // the user is connected, but not logged in
    let mut test = with_direct_messages(Test::new().with_connected_admin_room());

    let status = test.webhook(direct_message("Hey there"));

    assert_eq!(status, 200);
    assert_eq!(test.world.rooms.len(), 1);
    assert_eq!(test.world.plain_texts(), Vec::<String>::new());
    assert_eq!(test.world.registered, Vec::<String>::new());
}

#[test]
fn a_direct_message_of_a_conversation_that_the_user_is_not_part_of_is_passed_over() {
    let mut test = Test::new().with_connected_admin_room().with_logged_in_user();
    test.world.channels.push(Channel {
        id: "someone_id_other_user_id".to_string(),
        name: None,
        usernames: vec!["someone".to_string(), "other_user".to_string()],
    });

    let status = test.webhook(direct_message("Hey there"));

    assert_eq!(status, 200);
    assert_eq!(test.world.rooms.len(), 1);
    assert_eq!(test.world.plain_texts(), Vec::<String>::new());
}

#[test]
fn a_direct_message_that_cannot_be_delivered_leaves_no_record() {
    let mut test = with_direct_messages(Test::new().with_connected_admin_room().with_logged_in_user());
    test.world.fail_send = true;

    let status = test.webhook(direct_message("Hey there"));

    assert_eq!(status, 500);
    // the virtual user of the sender was registered on the homeserver, and is not kept
    assert_eq!(test.world.registered, vec!["@rocketchat_other_user_id_rc_id:localhost".to_string()]);
    assert_eq!(test.store.users_on_rocketchat_servers.len(), 1);
}

fn members(given: &[(&str, Member)]) -> Vec<(String, Member)> {
    given.iter().map(|(name, member)| (name.to_string(), payload::copy_of(member))).collect()
}

#[test]
fn the_members_of_a_payload_decide_whether_it_holds_a_message() {
    let text = |value: &str| Member::Text(value.to_string());
    let whole = members(&[
        ("text", text("spec_message")),
        ("message_id", text("spec_id")),
        ("channel_id", text("spec_channel_id")),
        ("channel_name", Member::Null),
        ("user_id", text("new_user_id")),
        ("bot", Member::Other),
        ("user_name", text("new_spec_user")),
    ]);
    assert_eq!(
        payload::assemble(&whole),
        Some(Message {
            message_id: "spec_id".to_string(),
            token: None,
            channel_id: "spec_channel_id".to_string(),
            channel_name: None,
            user_id: "new_user_id".to_string(),
            user_name: "new_spec_user".to_string(),
            text: "spec_message".to_string(),
        })
    );
    assert_eq!(payload::member(&whole, "user_id"), text("new_user_id"));
    assert_eq!(payload::member(&whole, "channel_name"), Member::Null);
    assert_eq!(payload::member(&whole, "bot"), Member::Other);
    assert_eq!(payload::member(&whole, "token"), Member::Absent);
    assert_eq!(payload::member(&whole, "user"), Member::Absent);

    // a token that is no string
    let mut wrong = members(&[("token", Member::Other)]);
    wrong.extend(members(&[
        ("text", text("t")),
        ("message_id", text("m")),
        ("channel_id", text("c")),
        ("user_id", text("u")),
        ("user_name", text("n")),
    ]));
    assert_eq!(payload::assemble(&wrong), None);
    // with the token a string, the same members make a message
    wrong[0].1 = text("rt");
    assert_eq!(payload::assemble(&wrong).unwrap().token, Some("rt".to_string()));
    // a name of the sender that is not there
    wrong.pop();
    assert_eq!(payload::assemble(&wrong), None);
}

#[test]
fn a_payload_is_read_as_the_json_that_it_is() {
    assert_eq!(payload::read("[1, 2]"), None);
    assert_eq!(payload::read("{\"message_id\": 1}"), None);
    assert_eq!(payload::read(""), None);
    assert_eq!(
        payload::read("{\"message_id\":\"m\",\"token\":null,\"channel_id\":\"c\",\"user_id\":\"u\",\"user_name\":\"n\",\"text\":\"t\",\"more\":[1]}"),
        Some(Message {
            message_id: "m".to_string(),
            token: None,
            channel_id: "c".to_string(),
            channel_name: None,
            user_id: "u".to_string(),
            user_name: "n".to_string(),
            text: "t".to_string(),
        })
    );
    // a text that is null
    assert_eq!(
        payload::read("{\"message_id\":\"m\",\"channel_id\":\"c\",\"user_id\":\"u\",\"user_name\":\"n\",\"text\":null}"),
        None
    );
    // a token that is a number
    assert_eq!(
        payload::read("{\"message_id\":\"m\",\"token\":1,\"channel_id\":\"c\",\"user_id\":\"u\",\"user_name\":\"n\",\"text\":\"t\"}"),
        None
    );
}

#[test]
fn an_answer_of_the_wrong_shape_fails_the_run() {
    let test = Test::new();
    let events = vec![Event::RoomMessage(MessageEvent {
        room_id: ADMIN_ROOM.to_string(),
        user_id: SPEC_USER.to_string(),
        content: MessageContent::Text("help".to_string()),
    })];
    let server = Server::new(&test.config);

    let first = server.transactions(&test.store, &Some(HS_TOKEN.to_string()), &events, 0, &Vec::new());
    assert_eq!(first, Progress::Ask(Request::GetRoomMembers { room_id: ADMIN_ROOM.to_string() }));

    // the members were asked for, and a text came back
    let replies = vec![Reply::Text("@spec_user:localhost".to_string())];
    let second = server.transactions(&test.store, &Some(HS_TOKEN.to_string()), &events, 0, &replies);
    assert_eq!(second, Progress::Done(Store::new(), 200));
}

#[test]
fn a_handler_that_lacks_an_answer_asks_for_the_call_and_keeps_nothing() {
    let test = Test::new().with_admin_room();
    let events = vec![Event::RoomMessage(MessageEvent {
        room_id: ADMIN_ROOM.to_string(),
        user_id: SPEC_USER.to_string(),
        content: MessageContent::Text("connect http://rc.example tok srv1".to_string()),
    })];
    let server = Server::new(&test.config);
    let members = Reply::Names(vec![SPEC_USER.to_string(), BOT.to_string()]);

    let replies = vec![members, Reply::Done];
    let progress = server.transactions(&test.store, &Some(HS_TOKEN.to_string()), &events, 0, &replies);
    assert_eq!(progress, Progress::Ask(Request::Probe { rocketchat_url: "http://rc.example".to_string() }));

    let members = Reply::Names(vec![SPEC_USER.to_string(), BOT.to_string()]);
    let replies = vec![members, Reply::Done, Reply::Done];
    let progress = server.transactions(&test.store, &Some(HS_TOKEN.to_string()), &events, 0, &replies);
    assert_eq!(
        progress,
        Progress::Ask(Request::SetRoomTopic {
            room_id: ADMIN_ROOM.to_string(),
            topic: "http://rc.example".to_string(),
        })
    );
    assert_eq!(test.store, Store::new());
}

#[test]
fn the_errors_carry_what_went_wrong() {
    let mut test = Test::new().with_admin_room();
    let events = vec![Event::RoomMember(MemberEvent {
        room_id: ADMIN_ROOM.to_string(),
        user_id: SPEC_USER.to_string(),
        state_key: "not a user id".to_string(),
        membership: MembershipState::Join,
        prev_sender: PrevSender::Absent,
    })];
    let asked = test.world.asked.len();

    // an error without a message for the user: nobody is told, and the answer is still 200
    assert_eq!(test.transaction(events), 200);
    assert_eq!(test.world.asked.len(), asked);

    let handler = matrix_rocketchat::handlers::events::RoomHandler::new(&test.config);
    let replies = Vec::new();
    let mut calls = matrix_rocketchat::api::Transcript::new(&replies);
    let event = MemberEvent {
        room_id: ADMIN_ROOM.to_string(),
        user_id: SPEC_USER.to_string(),
        state_key: "not a user id".to_string(),
        membership: MembershipState::Join,
        prev_sender: PrevSender::Absent,
    };
    match handler.process(&test.store, &mut calls, &event) {
        Err(matrix_rocketchat::api::Halt::Fail(error)) => {
            assert_eq!(error.kind, ErrorKind::InvalidUserId("not a user id".to_string()));
            assert_eq!(error.user_message, None);
        }
        other => panic!("unexpected {:?}", other),
    }

    let event = MemberEvent {
        room_id: ADMIN_ROOM.to_string(),
        user_id: BOT.to_string(),
        state_key: BOT.to_string(),
        membership: MembershipState::Join,
        prev_sender: PrevSender::Other,
    };
    match handler.process(&test.store, &mut calls, &event) {
        Err(matrix_rocketchat::api::Halt::Fail(error)) => {
            assert_eq!(error.kind, ErrorKind::InvalidUserId("".to_string()));
        }
        other => panic!("unexpected {:?}", other),
    }
}

fn scenario() -> Test {
    let mut test = Test::new().with_admin_room();
    test.say(ADMIN_ROOM, SPEC_USER, "connect https://rc.example tok1 srv1");
    test.say(ADMIN_ROOM, SPEC_USER, "login spec_user secret");
    test.world.channels.push(Channel {
        id: "spec_channel_id".to_string(),
        name: Some("spec_channel".to_string()),
        usernames: vec!["spec_user".to_string(), "bob".to_string()],
    });
    test.say(ADMIN_ROOM, SPEC_USER, "bridge spec_channel");
    test.world.sent.clear();
    test.world.invites.clear();
    test.world.joins.clear();
    test.world.registered.clear();
    test.world.display_names.clear();
    test
}

fn webhook(test: &mut Test, user_id: &str, user_name: &str, text: &str) -> u16 {
    test.webhook(Message {
        message_id: "spec_id".to_string(),
        token: Some("tok1".to_string()),
        channel_id: "spec_channel_id".to_string(),
        channel_name: Some("spec_channel".to_string()),
        user_id: user_id.to_string(),
        user_name: user_name.to_string(),
        text: text.to_string(),
    })
}

#[test]
fn rocketchat_to_matrix_new_user() {
    let mut test = scenario();

    let status = webhook(&mut test, "new_user_id", "new_spec_user", "hi");

    let new_user = "@rocketchat_new_user_id_srv1:localhost".to_string();
    assert_eq!(status, 200);
    assert_eq!(test.world.registered, vec![new_user.clone()]);
    assert_eq!(test.world.invites, vec![(CHANNEL_ROOM.to_string(), new_user.clone(), BOT.to_string())]);
    assert_eq!(test.world.joins, vec![(CHANNEL_ROOM.to_string(), new_user.clone())]);
    assert_eq!(test.world.sent, vec![(CHANNEL_ROOM.to_string(), new_user.clone(), Body::Plain("hi".to_string()))]);
    assert_eq!(test.world.display_names, vec![(new_user, "new_spec_user".to_string())]);
}

#[test]
fn display_name_rename() {
    let mut test = scenario();
    webhook(&mut test, "new_user_id", "new_spec_user", "hi");
    test.world.display_names.clear();

    webhook(&mut test, "new_user_id", "new_spec_user_2", "hi");

    assert_eq!(
        test.world.display_names,
        vec![("@rocketchat_new_user_id_srv1:localhost".to_string(), "new_spec_user_2".to_string())]
    );
    let stored = UserOnRocketchatServer::find(&test.store, "@rocketchat_new_user_id_srv1:localhost", "srv1").unwrap();
    assert_eq!(stored.rocketchat_username, Some("new_spec_user_2".to_string()));

    webhook(&mut test, "new_user_id", "new_spec_user_2", "hi");
    assert_eq!(test.world.display_names.len(), 1);
}

#[test]
fn loop_suppression() {
    let mut test = scenario();

    test.say(CHANNEL_ROOM, SPEC_USER, "hello");
    assert_eq!(test.world.posted.len(), 1);
    assert_eq!(test.world.posted[0].3, "hello".to_string());

    test.now += 1;
    let status = webhook(&mut test, "spec_user_id", "spec_user", "hello");

    assert_eq!(status, 200);
    assert_eq!(test.world.sent, Vec::<(String, String, Body)>::new());
}

#[test]
fn unauthorized_webhook() {
    let mut test = scenario();
    let server = Server::new(&test.config);
    let mut payload = message("spec_channel", "new_user_id", "new_spec_user", "hi");

    payload.token = None;
    let without = server.rocketchat(&test.store, &Some(payload), test.now, &Vec::new());
    assert!(matches!(without, Progress::Done(_, 401)));

    let mut payload = message("spec_channel", "new_user_id", "new_spec_user", "hi");
    payload.token = Some("wrong".to_string());
    let wrong = server.rocketchat(&test.store, &Some(payload), test.now, &Vec::new());
    assert!(matches!(wrong, Progress::Done(_, 403)));

    let unreadable = server.rocketchat(&test.store, &None, test.now, &Vec::new());
    assert!(matches!(unreadable, Progress::Done(_, 422)));

    assert_eq!(webhook(&mut test, "new_user_id", "new_spec_user", "hi"), 200);
}

#[test]
fn a_second_connect_to_a_known_server_leaves_the_tables_as_they_were() {
    let config = config();
    let handler = matrix_rocketchat::handlers::events::CommandHandler::new(&config);
    let event = MessageEvent {
        room_id: "!another_room_id:localhost".to_string(),
        user_id: SPEC_USER.to_string(),
        content: MessageContent::Text(format!("connect {}", RC_URL)),
    };
    let test = Test::new().with_connected_admin_room();
    let mut store = test.store.clone();
    // the topic of the room: none; the new topic; the topic again, for the help; the help
    let replies = vec![Reply::Done, Reply::Done, Reply::Text(RC_URL.to_string()), Reply::Done];
    let mut calls = matrix_rocketchat::api::Transcript::new(&replies);

    let result = handler.connect(&mut store, &mut calls, &event, &format!("connect {}", RC_URL));

    assert_eq!(result, Ok(()));
    assert_eq!(store, test.store);
    assert_eq!(store.rocketchat_servers.len(), 1);
    assert_eq!(store.users_on_rocketchat_servers.len(), 1);
    assert_eq!(
        UserOnRocketchatServer::find(&store, SPEC_USER, "rc_id").ok(),
        Some(UserOnRocketchatServer {
            is_virtual_user: false,
            matrix_user_id: SPEC_USER.to_string(),
            rocketchat_server_id: "rc_id".to_string(),
            rocketchat_user_id: None,
            rocketchat_auth_token: None,
            rocketchat_username: None,
        })
    );
}

#[test]
fn a_login_that_the_server_refuses_changes_nothing() {
    let mut test = Test::new().with_connected_admin_room();
    let before = test.store.clone();

    let status = test.say(ADMIN_ROOM, SPEC_USER, "login spec_user wrong");

    assert_eq!(status, 200);
    assert_eq!(test.store, before);
    let row = UserOnRocketchatServer::find(&test.store, SPEC_USER, "rc_id").unwrap();
    assert_eq!(row.rocketchat_user_id, None);
    assert_eq!(row.rocketchat_auth_token, None);
    assert!(!row.is_logged_in());
}
