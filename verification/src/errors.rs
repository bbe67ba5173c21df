//! The errors of the bridge: what went wrong, and the message that the user is shown.

use vstd::prelude::*;
use crate::i18n::{Message, MessageKey, MessageView, VarName, VarValue, VarValueView};
use crate::MAX_ROCKETCHAT_SERVER_ID_LENGTH;

verus! {

/// What went wrong.
#[derive(Debug, PartialEq, Eq)]
pub enum ErrorKind {
    /// `connect` in a room that is connected to a server already.
    RoomAlreadyConnected(String),
    /// A command that needs a server, in a room that is connected to none.
    RoomNotConnected(String),
    /// `connect` with a token but with no server id.
    ConnectWithoutRocketchatServerId,
    /// `connect` with a server id that is too long or holds a character that is not allowed.
    ConnectWithInvalidRocketchatServerId(String),
    /// `connect` with a server id that another server has.
    RocketchatServerIdAlreadyInUse(String),
    /// `connect` with a token to a server that has one already.
    RocketchatServerAlreadyConnected(String),
    /// `connect` with a token that another server has.
    RocketchatTokenAlreadyInUse(String),
    /// `connect` without a token to a server that is not known.
    RocketchatTokenMissing,
    /// No channel of that name on the Rocket.Chat server.
    RocketchatChannelNotFound(String),
    /// The user is not in the channel on the Rocket.Chat server.
    RocketchatJoinFirst(String),
    /// The user is in the room of the channel already.
    RocketchatChannelAlreadyBridged(String),
    /// `unbridge` of a channel that has no room.
    UnbridgeOfNotBridgedRoom(String),
    /// `unbridge` of a room in which users other than virtual ones still are.
    RoomNotEmpty(String, String),
    /// The bot joined a room and nobody is known to have invited it.
    InviterUnknown(String),
    /// The bot was invited by someone who did not create the room.
    OnlyRoomCreatorCanInviteBotUser(String, String, String),
    /// The room that the bot was invited to has more than two members.
    TooManyUsersInAdminRoom(String),
    /// A text that is no Matrix user id.
    InvalidUserId(String),
    /// A text that is no host name.
    InvalidHostname(String),
    /// The store holds no record of the user on the server.
    UserOnRocketchatServerNotFound(String, String),
    /// A call to the homeserver or to a Rocket.Chat server failed.
    Transport(String),
    /// The answer to a call has a shape that the call does not have.
    UnexpectedReply,
}

/// The mathematical value of an [`ErrorKind`].
pub enum ErrorKindView {
    /// `connect` in a room that is connected to a server already.
    RoomAlreadyConnected(Seq<char>),
    /// A command that needs a server, in a room that is connected to none.
    RoomNotConnected(Seq<char>),
    /// `connect` with a token but with no server id.
    ConnectWithoutRocketchatServerId,
    /// `connect` with a server id that is too long or holds a character that is not allowed.
    ConnectWithInvalidRocketchatServerId(Seq<char>),
    /// `connect` with a server id that another server has.
    RocketchatServerIdAlreadyInUse(Seq<char>),
    /// `connect` with a token to a server that has one already.
    RocketchatServerAlreadyConnected(Seq<char>),
    /// `connect` with a token that another server has.
    RocketchatTokenAlreadyInUse(Seq<char>),
    /// `connect` without a token to a server that is not known.
    RocketchatTokenMissing,
    /// No channel of that name on the Rocket.Chat server.
    RocketchatChannelNotFound(Seq<char>),
    /// The user is not in the channel on the Rocket.Chat server.
    RocketchatJoinFirst(Seq<char>),
    /// The user is in the room of the channel already.
    RocketchatChannelAlreadyBridged(Seq<char>),
    /// `unbridge` of a channel that has no room.
    UnbridgeOfNotBridgedRoom(Seq<char>),
    /// `unbridge` of a room in which users other than virtual ones still are.
    RoomNotEmpty(Seq<char>, Seq<char>),
    /// The bot joined a room and nobody is known to have invited it.
    InviterUnknown(Seq<char>),
    /// The bot was invited by someone who did not create the room.
    OnlyRoomCreatorCanInviteBotUser(Seq<char>, Seq<char>, Seq<char>),
    /// The room that the bot was invited to has more than two members.
    TooManyUsersInAdminRoom(Seq<char>),
    /// A text that is no Matrix user id.
    InvalidUserId(Seq<char>),
    /// A text that is no host name.
    InvalidHostname(Seq<char>),
    /// The store holds no record of the user on the server.
    UserOnRocketchatServerNotFound(Seq<char>, Seq<char>),
    /// A call to the homeserver or to a Rocket.Chat server failed.
    Transport(Seq<char>),
    /// The answer to a call has a shape that the call does not have.
    UnexpectedReply,
}

impl DeepView for ErrorKind {
    type V = ErrorKindView;

    open spec fn deep_view(&self) -> ErrorKindView {
        match self {
            ErrorKind::RoomAlreadyConnected(a) => ErrorKindView::RoomAlreadyConnected(a@),
            ErrorKind::RoomNotConnected(a) => ErrorKindView::RoomNotConnected(a@),
            ErrorKind::ConnectWithoutRocketchatServerId => ErrorKindView::ConnectWithoutRocketchatServerId,
            ErrorKind::ConnectWithInvalidRocketchatServerId(a) => ErrorKindView::ConnectWithInvalidRocketchatServerId(a@),
            ErrorKind::RocketchatServerIdAlreadyInUse(a) => ErrorKindView::RocketchatServerIdAlreadyInUse(a@),
            ErrorKind::RocketchatServerAlreadyConnected(a) => ErrorKindView::RocketchatServerAlreadyConnected(a@),
            ErrorKind::RocketchatTokenAlreadyInUse(a) => ErrorKindView::RocketchatTokenAlreadyInUse(a@),
            ErrorKind::RocketchatTokenMissing => ErrorKindView::RocketchatTokenMissing,
            ErrorKind::RocketchatChannelNotFound(a) => ErrorKindView::RocketchatChannelNotFound(a@),
            ErrorKind::RocketchatJoinFirst(a) => ErrorKindView::RocketchatJoinFirst(a@),
            ErrorKind::RocketchatChannelAlreadyBridged(a) => ErrorKindView::RocketchatChannelAlreadyBridged(a@),
            ErrorKind::UnbridgeOfNotBridgedRoom(a) => ErrorKindView::UnbridgeOfNotBridgedRoom(a@),
            ErrorKind::RoomNotEmpty(a, b) => ErrorKindView::RoomNotEmpty(a@, b@),
            ErrorKind::InviterUnknown(a) => ErrorKindView::InviterUnknown(a@),
            ErrorKind::OnlyRoomCreatorCanInviteBotUser(a, b, c) => ErrorKindView::OnlyRoomCreatorCanInviteBotUser(a@, b@, c@),
            ErrorKind::TooManyUsersInAdminRoom(a) => ErrorKindView::TooManyUsersInAdminRoom(a@),
            ErrorKind::InvalidUserId(a) => ErrorKindView::InvalidUserId(a@),
            ErrorKind::InvalidHostname(a) => ErrorKindView::InvalidHostname(a@),
            ErrorKind::UserOnRocketchatServerNotFound(a, b) => ErrorKindView::UserOnRocketchatServerNotFound(a@, b@),
            ErrorKind::Transport(a) => ErrorKindView::Transport(a@),
            ErrorKind::UnexpectedReply => ErrorKindView::UnexpectedReply,
        }
    }
}

impl Clone for ErrorKind {
    fn clone(&self) -> (copy: Self)
        ensures
            copy.deep_view() == self.deep_view(),
    {
        match self {
            ErrorKind::RoomAlreadyConnected(a) => ErrorKind::RoomAlreadyConnected(a.clone()),
            ErrorKind::RoomNotConnected(a) => ErrorKind::RoomNotConnected(a.clone()),
            ErrorKind::ConnectWithoutRocketchatServerId => ErrorKind::ConnectWithoutRocketchatServerId,
            ErrorKind::ConnectWithInvalidRocketchatServerId(a) => ErrorKind::ConnectWithInvalidRocketchatServerId(a.clone()),
            ErrorKind::RocketchatServerIdAlreadyInUse(a) => ErrorKind::RocketchatServerIdAlreadyInUse(a.clone()),
            ErrorKind::RocketchatServerAlreadyConnected(a) => ErrorKind::RocketchatServerAlreadyConnected(a.clone()),
            ErrorKind::RocketchatTokenAlreadyInUse(a) => ErrorKind::RocketchatTokenAlreadyInUse(a.clone()),
            ErrorKind::RocketchatTokenMissing => ErrorKind::RocketchatTokenMissing,
            ErrorKind::RocketchatChannelNotFound(a) => ErrorKind::RocketchatChannelNotFound(a.clone()),
            ErrorKind::RocketchatJoinFirst(a) => ErrorKind::RocketchatJoinFirst(a.clone()),
            ErrorKind::RocketchatChannelAlreadyBridged(a) => ErrorKind::RocketchatChannelAlreadyBridged(a.clone()),
            ErrorKind::UnbridgeOfNotBridgedRoom(a) => ErrorKind::UnbridgeOfNotBridgedRoom(a.clone()),
            ErrorKind::RoomNotEmpty(a, b) => ErrorKind::RoomNotEmpty(a.clone(), b.clone()),
            ErrorKind::InviterUnknown(a) => ErrorKind::InviterUnknown(a.clone()),
            ErrorKind::OnlyRoomCreatorCanInviteBotUser(a, b, c) => ErrorKind::OnlyRoomCreatorCanInviteBotUser(a.clone(), b.clone(), c.clone()),
            ErrorKind::TooManyUsersInAdminRoom(a) => ErrorKind::TooManyUsersInAdminRoom(a.clone()),
            ErrorKind::InvalidUserId(a) => ErrorKind::InvalidUserId(a.clone()),
            ErrorKind::InvalidHostname(a) => ErrorKind::InvalidHostname(a.clone()),
            ErrorKind::UserOnRocketchatServerNotFound(a, b) => ErrorKind::UserOnRocketchatServerNotFound(a.clone(), b.clone()),
            ErrorKind::Transport(a) => ErrorKind::Transport(a.clone()),
            ErrorKind::UnexpectedReply => ErrorKind::UnexpectedReply,
        }
    }
}

/// An error: what went wrong and, where the user is to be told, the message for them.
#[derive(Debug, PartialEq, Eq)]
pub struct Error {
    /// What went wrong.
    pub kind: ErrorKind,
    /// The message for the user, if there is one.
    pub user_message: Option<Message>,
}

/// The mathematical value of an [`Error`].
pub struct ErrorView {
    /// What went wrong.
    pub kind: ErrorKindView,
    /// The message for the user, if there is one.
    pub user_message: Option<MessageView>,
}

impl DeepView for Error {
    type V = ErrorView;

    open spec fn deep_view(&self) -> ErrorView {
        ErrorView { kind: self.kind.deep_view(), user_message: self.user_message.deep_view() }
    }
}

impl Clone for Error {
    fn clone(&self) -> (copy: Self)
        ensures
            copy.deep_view() == self.deep_view(),
    {
        let user_message = match &self.user_message {
            Some(m) => Some(m.clone()),
            None => None,
        };
        Error { kind: self.kind.clone(), user_message }
    }
}

/// An error of `kind` of which the user is told nothing.
pub open spec fn silent(kind: ErrorKindView) -> ErrorView {
    ErrorView { kind, user_message: None }
}

/// `connect` in a room that is connected to a server already.
pub open spec fn room_already_connected(room_id: Seq<char>) -> ErrorView {
    ErrorView {
        kind: ErrorKindView::RoomAlreadyConnected(room_id),
        user_message: Some(MessageView { key: MessageKey::RoomAlreadyConnected, vars: Seq::empty() }),
    }
}

/// A command that needs a server, in a room that is connected to none.
pub open spec fn room_not_connected(room_id: Seq<char>) -> ErrorView {
    ErrorView {
        kind: ErrorKindView::RoomNotConnected(room_id),
        user_message: Some(MessageView { key: MessageKey::RoomNotConnected, vars: Seq::empty() }),
    }
}

/// `connect` with a token but with no server id.
pub open spec fn connect_without_rocketchat_server_id() -> ErrorView {
    ErrorView {
        kind: ErrorKindView::ConnectWithoutRocketchatServerId,
        user_message: Some(MessageView { key: MessageKey::ConnectWithoutRocketchatServerId, vars: Seq::empty() }),
    }
}

/// `connect` with a server id that is too long or holds a character that is not allowed.
pub open spec fn connect_with_invalid_rocketchat_server_id(rocketchat_server_id: Seq<char>) -> ErrorView {
    ErrorView {
        kind: ErrorKindView::ConnectWithInvalidRocketchatServerId(rocketchat_server_id),
        user_message: Some(MessageView { key: MessageKey::ConnectWithInvalidRocketchatServerId, vars: seq![(VarName::RocketchatServerId, VarValueView::Text(rocketchat_server_id)), (VarName::MaxRocketchatServerIdLength, VarValueView::Number(MAX_ROCKETCHAT_SERVER_ID_LENGTH))] }),
    }
}

/// `connect` with a server id that another server has.
pub open spec fn rocketchat_server_id_already_in_use(rocketchat_server_id: Seq<char>) -> ErrorView {
    ErrorView {
        kind: ErrorKindView::RocketchatServerIdAlreadyInUse(rocketchat_server_id),
        user_message: Some(MessageView { key: MessageKey::RocketchatServerIdAlreadyInUse, vars: seq![(VarName::RocketchatServerId, VarValueView::Text(rocketchat_server_id))] }),
    }
}

/// `connect` with a token to a server that has one already.
pub open spec fn rocketchat_server_already_connected(rocketchat_url: Seq<char>, matrix_user_id: Seq<char>) -> ErrorView {
    ErrorView {
        kind: ErrorKindView::RocketchatServerAlreadyConnected(rocketchat_url),
        user_message: Some(MessageView { key: MessageKey::RocketchatServerAlreadyConnected, vars: seq![(VarName::RocketchatUrl, VarValueView::Text(rocketchat_url)), (VarName::MatrixUserId, VarValueView::Text(matrix_user_id))] }),
    }
}

/// `connect` with a token that another server has.
pub open spec fn rocketchat_token_already_in_use(token: Seq<char>) -> ErrorView {
    ErrorView {
        kind: ErrorKindView::RocketchatTokenAlreadyInUse(token),
        user_message: Some(MessageView { key: MessageKey::TokenAlreadyInUse, vars: seq![(VarName::Token, VarValueView::Text(token))] }),
    }
}

/// `connect` without a token to a server that is not known.
pub open spec fn rocketchat_token_missing() -> ErrorView {
    ErrorView {
        kind: ErrorKindView::RocketchatTokenMissing,
        user_message: Some(MessageView { key: MessageKey::RocketchatTokenMissing, vars: Seq::empty() }),
    }
}

/// No channel of that name on the Rocket.Chat server.
pub open spec fn rocketchat_channel_not_found(channel_name: Seq<char>) -> ErrorView {
    ErrorView {
        kind: ErrorKindView::RocketchatChannelNotFound(channel_name),
        user_message: Some(MessageView { key: MessageKey::RocketchatChannelNotFound, vars: seq![(VarName::ChannelName, VarValueView::Text(channel_name))] }),
    }
}

/// The user is not in the channel on the Rocket.Chat server.
pub open spec fn rocketchat_join_first(channel_name: Seq<char>) -> ErrorView {
    ErrorView {
        kind: ErrorKindView::RocketchatJoinFirst(channel_name),
        user_message: Some(MessageView { key: MessageKey::RocketchatJoinFirst, vars: seq![(VarName::ChannelName, VarValueView::Text(channel_name))] }),
    }
}

/// The user is in the room of the channel already.
pub open spec fn rocketchat_channel_already_bridged(channel_name: Seq<char>) -> ErrorView {
    ErrorView {
        kind: ErrorKindView::RocketchatChannelAlreadyBridged(channel_name),
        user_message: Some(MessageView { key: MessageKey::RocketchatChannelAlreadyBridged, vars: seq![(VarName::ChannelName, VarValueView::Text(channel_name))] }),
    }
}

/// `unbridge` of a channel that has no room.
pub open spec fn unbridge_of_not_bridged_room(channel_name: Seq<char>) -> ErrorView {
    ErrorView {
        kind: ErrorKindView::UnbridgeOfNotBridgedRoom(channel_name),
        user_message: Some(MessageView { key: MessageKey::UnbridgeOfNotBridgedRoom, vars: seq![(VarName::ChannelName, VarValueView::Text(channel_name))] }),
    }
}

/// `unbridge` of a room in which users other than virtual ones still are.
pub open spec fn room_not_empty(channel_name: Seq<char>, users: Seq<char>) -> ErrorView {
    ErrorView {
        kind: ErrorKindView::RoomNotEmpty(channel_name, users),
        user_message: Some(MessageView { key: MessageKey::RoomNotEmpty, vars: seq![(VarName::ChannelName, VarValueView::Text(channel_name)), (VarName::Users, VarValueView::Text(users))] }),
    }
}

/// The bot joined a room and nobody is known to have invited it.
pub open spec fn inviter_unknown(room_id: Seq<char>) -> ErrorView {
    ErrorView {
        kind: ErrorKindView::InviterUnknown(room_id),
        user_message: Some(MessageView { key: MessageKey::InviterUnknown, vars: Seq::empty() }),
    }
}

/// The bot was invited by someone who did not create the room.
pub open spec fn only_room_creator_can_invite_bot_user(inviter_id: Seq<char>, room_id: Seq<char>, creator_id: Seq<char>) -> ErrorView {
    ErrorView {
        kind: ErrorKindView::OnlyRoomCreatorCanInviteBotUser(inviter_id, room_id, creator_id),
        user_message: Some(MessageView { key: MessageKey::OnlyRoomCreatorCanInviteBotUser, vars: Seq::empty() }),
    }
}

/// The room that the bot was invited to has more than two members.
pub open spec fn too_many_users_in_admin_room(room_id: Seq<char>) -> ErrorView {
    ErrorView {
        kind: ErrorKindView::TooManyUsersInAdminRoom(room_id),
        user_message: Some(MessageView { key: MessageKey::TooManyMembersInRoom, vars: Seq::empty() }),
    }
}

/// A text that is no Matrix user id.
pub open spec fn invalid_user_id(user_id: Seq<char>) -> ErrorView {
    silent(ErrorKindView::InvalidUserId(user_id))
}

/// A text that is no host name.
pub open spec fn invalid_hostname(hostname: Seq<char>) -> ErrorView {
    silent(ErrorKindView::InvalidHostname(hostname))
}

/// The store holds no record of the user on the server.
pub open spec fn user_on_rocketchat_server_not_found(matrix_user_id: Seq<char>, rocketchat_server_id: Seq<char>) -> ErrorView {
    silent(ErrorKindView::UserOnRocketchatServerNotFound(matrix_user_id, rocketchat_server_id))
}

/// A call to the homeserver or to a Rocket.Chat server failed.
pub open spec fn transport(cause: Seq<char>) -> ErrorView {
    silent(ErrorKindView::Transport(cause))
}

/// The answer to a call has a shape that the call does not have.
pub open spec fn unexpected_reply() -> ErrorView {
    silent(ErrorKindView::UnexpectedReply)
}

impl Error {
    /// `connect` in a room that is connected to a server already.
    pub fn room_already_connected(room_id: String) -> (e: Error)
        ensures
            e.deep_view() == self::room_already_connected(room_id@),
    {
        let message = Message::new(MessageKey::RoomAlreadyConnected);
        let e = Error { kind: ErrorKind::RoomAlreadyConnected(room_id), user_message: Some(message) };
        e
    }

    /// A command that needs a server, in a room that is connected to none.
    pub fn room_not_connected(room_id: String) -> (e: Error)
        ensures
            e.deep_view() == self::room_not_connected(room_id@),
    {
        let message = Message::new(MessageKey::RoomNotConnected);
        let e = Error { kind: ErrorKind::RoomNotConnected(room_id), user_message: Some(message) };
        e
    }

    /// `connect` with a token but with no server id.
    pub fn connect_without_rocketchat_server_id() -> (e: Error)
        ensures
            e.deep_view() == self::connect_without_rocketchat_server_id(),
    {
        let message = Message::new(MessageKey::ConnectWithoutRocketchatServerId);
        let e = Error { kind: ErrorKind::ConnectWithoutRocketchatServerId, user_message: Some(message) };
        e
    }

    /// `connect` with a server id that is too long or holds a character that is not allowed.
    pub fn connect_with_invalid_rocketchat_server_id(rocketchat_server_id: String) -> (e: Error)
        ensures
            e.deep_view() == self::connect_with_invalid_rocketchat_server_id(rocketchat_server_id@),
    {
        let message = Message::new(MessageKey::ConnectWithInvalidRocketchatServerId);
        let message = message.with_text(VarName::RocketchatServerId, rocketchat_server_id.clone());
        let message = message.with(VarName::MaxRocketchatServerIdLength, VarValue::Number(MAX_ROCKETCHAT_SERVER_ID_LENGTH));
        let e = Error { kind: ErrorKind::ConnectWithInvalidRocketchatServerId(rocketchat_server_id), user_message: Some(message) };
        assert(e.deep_view().user_message->0.vars =~= self::connect_with_invalid_rocketchat_server_id(rocketchat_server_id@).user_message->0.vars);
        e
    }

    /// `connect` with a server id that another server has.
    pub fn rocketchat_server_id_already_in_use(rocketchat_server_id: String) -> (e: Error)
        ensures
            e.deep_view() == self::rocketchat_server_id_already_in_use(rocketchat_server_id@),
    {
        let message = Message::new(MessageKey::RocketchatServerIdAlreadyInUse);
        let message = message.with_text(VarName::RocketchatServerId, rocketchat_server_id.clone());
        let e = Error { kind: ErrorKind::RocketchatServerIdAlreadyInUse(rocketchat_server_id), user_message: Some(message) };
        e
    }

    /// `connect` with a token to a server that has one already.
    pub fn rocketchat_server_already_connected(rocketchat_url: String, matrix_user_id: String) -> (e: Error)
        ensures
            e.deep_view() == self::rocketchat_server_already_connected(rocketchat_url@, matrix_user_id@),
    {
        let message = Message::new(MessageKey::RocketchatServerAlreadyConnected);
        let message = message.with_text(VarName::RocketchatUrl, rocketchat_url.clone());
        let message = message.with_text(VarName::MatrixUserId, matrix_user_id);
        let e = Error { kind: ErrorKind::RocketchatServerAlreadyConnected(rocketchat_url), user_message: Some(message) };
        assert(e.deep_view().user_message->0.vars =~= self::rocketchat_server_already_connected(rocketchat_url@, matrix_user_id@).user_message->0.vars);
        e
    }

    /// `connect` with a token that another server has.
    pub fn rocketchat_token_already_in_use(token: String) -> (e: Error)
        ensures
            e.deep_view() == self::rocketchat_token_already_in_use(token@),
    {
        let message = Message::new(MessageKey::TokenAlreadyInUse);
        let message = message.with_text(VarName::Token, token.clone());
        let e = Error { kind: ErrorKind::RocketchatTokenAlreadyInUse(token), user_message: Some(message) };
        e
    }

    /// `connect` without a token to a server that is not known.
    pub fn rocketchat_token_missing() -> (e: Error)
        ensures
            e.deep_view() == self::rocketchat_token_missing(),
    {
        let message = Message::new(MessageKey::RocketchatTokenMissing);
        let e = Error { kind: ErrorKind::RocketchatTokenMissing, user_message: Some(message) };
        e
    }

    /// No channel of that name on the Rocket.Chat server.
    pub fn rocketchat_channel_not_found(channel_name: String) -> (e: Error)
        ensures
            e.deep_view() == self::rocketchat_channel_not_found(channel_name@),
    {
        let message = Message::new(MessageKey::RocketchatChannelNotFound);
        let message = message.with_text(VarName::ChannelName, channel_name.clone());
        let e = Error { kind: ErrorKind::RocketchatChannelNotFound(channel_name), user_message: Some(message) };
        e
    }

    /// The user is not in the channel on the Rocket.Chat server.
    pub fn rocketchat_join_first(channel_name: String) -> (e: Error)
        ensures
            e.deep_view() == self::rocketchat_join_first(channel_name@),
    {
        let message = Message::new(MessageKey::RocketchatJoinFirst);
        let message = message.with_text(VarName::ChannelName, channel_name.clone());
        let e = Error { kind: ErrorKind::RocketchatJoinFirst(channel_name), user_message: Some(message) };
        e
    }

    /// The user is in the room of the channel already.
    pub fn rocketchat_channel_already_bridged(channel_name: String) -> (e: Error)
        ensures
            e.deep_view() == self::rocketchat_channel_already_bridged(channel_name@),
    {
        let message = Message::new(MessageKey::RocketchatChannelAlreadyBridged);
        let message = message.with_text(VarName::ChannelName, channel_name.clone());
        let e = Error { kind: ErrorKind::RocketchatChannelAlreadyBridged(channel_name), user_message: Some(message) };
        e
    }

    /// `unbridge` of a channel that has no room.
    pub fn unbridge_of_not_bridged_room(channel_name: String) -> (e: Error)
        ensures
            e.deep_view() == self::unbridge_of_not_bridged_room(channel_name@),
    {
        let message = Message::new(MessageKey::UnbridgeOfNotBridgedRoom);
        let message = message.with_text(VarName::ChannelName, channel_name.clone());
        let e = Error { kind: ErrorKind::UnbridgeOfNotBridgedRoom(channel_name), user_message: Some(message) };
        e
    }

    /// `unbridge` of a room in which users other than virtual ones still are.
    pub fn room_not_empty(channel_name: String, users: String) -> (e: Error)
        ensures
            e.deep_view() == self::room_not_empty(channel_name@, users@),
    {
        let message = Message::new(MessageKey::RoomNotEmpty);
        let message = message.with_text(VarName::ChannelName, channel_name.clone());
        let message = message.with_text(VarName::Users, users.clone());
        let e = Error { kind: ErrorKind::RoomNotEmpty(channel_name, users), user_message: Some(message) };
        assert(e.deep_view().user_message->0.vars =~= self::room_not_empty(channel_name@, users@).user_message->0.vars);
        e
    }

    /// The bot joined a room and nobody is known to have invited it.
    pub fn inviter_unknown(room_id: String) -> (e: Error)
        ensures
            e.deep_view() == self::inviter_unknown(room_id@),
    {
        let message = Message::new(MessageKey::InviterUnknown);
        let e = Error { kind: ErrorKind::InviterUnknown(room_id), user_message: Some(message) };
        e
    }

    /// The bot was invited by someone who did not create the room.
    pub fn only_room_creator_can_invite_bot_user(inviter_id: String, room_id: String, creator_id: String) -> (e: Error)
        ensures
            e.deep_view() == self::only_room_creator_can_invite_bot_user(inviter_id@, room_id@, creator_id@),
    {
        let message = Message::new(MessageKey::OnlyRoomCreatorCanInviteBotUser);
        let e = Error { kind: ErrorKind::OnlyRoomCreatorCanInviteBotUser(inviter_id, room_id, creator_id), user_message: Some(message) };
        e
    }

    /// The room that the bot was invited to has more than two members.
    pub fn too_many_users_in_admin_room(room_id: String) -> (e: Error)
        ensures
            e.deep_view() == self::too_many_users_in_admin_room(room_id@),
    {
        let message = Message::new(MessageKey::TooManyMembersInRoom);
        let e = Error { kind: ErrorKind::TooManyUsersInAdminRoom(room_id), user_message: Some(message) };
        e
    }

    /// A text that is no Matrix user id.
    pub fn invalid_user_id(user_id: String) -> (e: Error)
        ensures
            e.deep_view() == self::invalid_user_id(user_id@),
    {
        Error { kind: ErrorKind::InvalidUserId(user_id), user_message: None }
    }

    /// A text that is no host name.
    pub fn invalid_hostname(hostname: String) -> (e: Error)
        ensures
            e.deep_view() == self::invalid_hostname(hostname@),
    {
        Error { kind: ErrorKind::InvalidHostname(hostname), user_message: None }
    }

    /// The store holds no record of the user on the server.
    pub fn user_on_rocketchat_server_not_found(matrix_user_id: String, rocketchat_server_id: String) -> (e: Error)
        ensures
            e.deep_view() == self::user_on_rocketchat_server_not_found(matrix_user_id@, rocketchat_server_id@),
    {
        Error { kind: ErrorKind::UserOnRocketchatServerNotFound(matrix_user_id, rocketchat_server_id), user_message: None }
    }

    /// A call to the homeserver or to a Rocket.Chat server failed.
    pub fn transport(cause: String) -> (e: Error)
        ensures
            e.deep_view() == self::transport(cause@),
    {
        Error { kind: ErrorKind::Transport(cause), user_message: None }
    }

    /// The answer to a call has a shape that the call does not have.
    pub fn unexpected_reply() -> (e: Error)
        ensures
            e.deep_view() == self::unexpected_reply(),
    {
        Error { kind: ErrorKind::UnexpectedReply, user_message: None }
    }

}

} // verus!
