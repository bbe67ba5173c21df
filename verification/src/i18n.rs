//! Messages that are shown to users: a key into the catalogue of translations, and the
//! values of the variables that the translated text holds.

use vstd::prelude::*;

verus! {

/// The entries of the catalogue of translations.
#[derive(Clone, Copy, Debug, PartialEq, Eq, Structural)]
pub enum MessageKey {
    /// How to connect an admin room to a Rocket.Chat server.
    ConnectionInstructions,
    /// How to log in on the connected Rocket.Chat server.
    LoginInstructions,
    /// The commands of a room whose user is logged in.
    UsageInstructions,
    /// The line that stands in place of the list of servers, where none is connected.
    NoRocketchatServerConnected,
    /// The list of channels of a Rocket.Chat server.
    ListChannels,
    /// The user logged in on the Rocket.Chat server.
    LoginSuccessful,
    /// A channel was bridged.
    RoomSuccessfullyBridged,
    /// A channel was unbridged.
    RoomSuccessfullyUnbridged,
    /// The display name that an admin room gets.
    AdminRoomDisplayName,
    /// Someone else joined an admin room.
    OtherUserJoined,
    /// The room is connected already.
    RoomAlreadyConnected,
    /// The room is not connected yet.
    RoomNotConnected,
    /// `connect` with a token but without a server id.
    ConnectWithoutRocketchatServerId,
    /// `connect` with a server id of the wrong shape.
    ConnectWithInvalidRocketchatServerId,
    /// The server id is taken.
    RocketchatServerIdAlreadyInUse,
    /// The server is connected already.
    RocketchatServerAlreadyConnected,
    /// The token is taken.
    TokenAlreadyInUse,
    /// `connect` without a token to a server that is not known.
    RocketchatTokenMissing,
    /// No channel of that name.
    RocketchatChannelNotFound,
    /// The user has to join the channel on Rocket.Chat first.
    RocketchatJoinFirst,
    /// The channel is bridged for this user already.
    RocketchatChannelAlreadyBridged,
    /// `unbridge` of a channel that is not bridged.
    UnbridgeOfNotBridgedRoom,
    /// `unbridge` of a room that users are still in.
    RoomNotEmpty,
    /// Nobody is known to have invited the bot.
    InviterUnknown,
    /// The bot was invited by someone who did not create the room.
    OnlyRoomCreatorCanInviteBotUser,
    /// The admin room has more than two members.
    TooManyMembersInRoom,
}

/// The variables that translated texts hold.
#[derive(Clone, Copy, Debug, PartialEq, Eq, Structural)]
pub enum VarName {
    /// The address of this service.
    AsUrl,
    /// The connected servers, one per line.
    ServerList,
    /// The address of a Rocket.Chat server.
    RocketchatUrl,
    /// A Matrix user id.
    MatrixUserId,
    /// The channels of a server, one per paragraph.
    ChannelList,
    /// The name of a channel.
    ChannelName,
    /// The id of a Rocket.Chat server.
    RocketchatServerId,
    /// The longest server id that is accepted.
    MaxRocketchatServerIdLength,
    /// A token of a Rocket.Chat server.
    Token,
    /// A list of users.
    Users,
}

impl DeepView for VarName {
    type V = VarName;

    open spec fn deep_view(&self) -> VarName {
        *self
    }
}

/// The value of a variable.
#[derive(Debug, PartialEq, Eq)]
pub enum VarValue {
    /// A text that stands as it is.
    Text(String),
    /// A number, written in decimal.
    Number(usize),
    /// The translation of another entry of the catalogue.
    Translated(MessageKey),
}

/// The mathematical value of a [`VarValue`].
pub enum VarValueView {
    /// A text that stands as it is.
    Text(Seq<char>),
    /// A number, written in decimal.
    Number(usize),
    /// The translation of another entry of the catalogue.
    Translated(MessageKey),
}

impl DeepView for VarValue {
    type V = VarValueView;

    open spec fn deep_view(&self) -> VarValueView {
        match self {
            VarValue::Text(t) => VarValueView::Text(t@),
            VarValue::Number(n) => VarValueView::Number(*n),
            VarValue::Translated(k) => VarValueView::Translated(*k),
        }
    }
}

impl Clone for VarValue {
    fn clone(&self) -> (copy: Self)
        ensures
            copy.deep_view() == self.deep_view(),
    {
        match self {
            VarValue::Text(t) => VarValue::Text(t.clone()),
            VarValue::Number(n) => VarValue::Number(*n),
            VarValue::Translated(k) => VarValue::Translated(*k),
        }
    }
}

/// A message for a user: the entry of the catalogue and the values of its variables.
#[derive(Debug, PartialEq, Eq)]
pub struct Message {
    /// The entry of the catalogue.
    pub key: MessageKey,
    /// The variables of the entry, each with its value.
    pub vars: Vec<(VarName, VarValue)>,
}

/// The mathematical value of a [`Message`].
pub struct MessageView {
    /// The entry of the catalogue.
    pub key: MessageKey,
    /// The variables of the entry, each with its value.
    pub vars: Seq<(VarName, VarValueView)>,
}

impl DeepView for Message {
    type V = MessageView;

    open spec fn deep_view(&self) -> MessageView {
        MessageView { key: self.key, vars: self.vars.deep_view() }
    }
}

/// The message of `key` that holds no variable.
pub open spec fn plain(key: MessageKey) -> MessageView {
    MessageView { key, vars: Seq::empty() }
}

impl Message {
    /// The message of `key` that holds no variable.
    pub fn new(key: MessageKey) -> (m: Message)
        ensures
            m.deep_view() == plain(key),
    {
        let m = Message { key, vars: Vec::new() };
        assert(m.deep_view().vars =~= Seq::empty());
        m
    }

    /// This message with one more variable.
    pub fn with(self, name: VarName, value: VarValue) -> (m: Message)
        ensures
            m.deep_view() == (MessageView {
                key: self.key,
                vars: self.deep_view().vars.push((name, value.deep_view())),
            }),
    {
        let mut vars = self.vars;
        vars.push((name, value));
        let m = Message { key: self.key, vars };
        assert(m.deep_view().vars =~= self.deep_view().vars.push((name, value.deep_view())));
        m
    }

    /// This message with one more variable, whose value is the text `value`.
    pub fn with_text(self, name: VarName, value: String) -> (m: Message)
        ensures
            m.deep_view() == (MessageView {
                key: self.key,
                vars: self.deep_view().vars.push((name, VarValueView::Text(value@))),
            }),
    {
        self.with(name, VarValue::Text(value))
    }
}

impl Clone for Message {
    fn clone(&self) -> (copy: Self)
        ensures
            copy.deep_view() == self.deep_view(),
    {
        let mut vars: Vec<(VarName, VarValue)> = Vec::new();
        let mut i: usize = 0;
        while i < self.vars.len()
            invariant
                i <= self.vars.len(),
                vars.len() == i,
                forall|j: int| 0 <= j < i ==> (#[trigger] vars@[j]).deep_view() == self.vars@[j].deep_view(),
            decreases self.vars.len() - i,
        {
            let name = self.vars[i].0;
            let value = self.vars[i].1.clone();
            vars.push((name, value));
            i = i + 1;
        }
        let copy = Message { key: self.key, vars };
        assert(copy.deep_view().vars =~= self.deep_view().vars);
        copy
    }
}

/// The name under which the texts of the catalogue hold a variable.
pub open spec fn name_of(var: VarName) -> Seq<char> {
    match var {
        VarName::AsUrl => "as_url"@,
        VarName::ServerList => "server_list"@,
        VarName::RocketchatUrl => "rocketchat_url"@,
        VarName::MatrixUserId => "matrix_user_id"@,
        VarName::ChannelList => "channel_list"@,
        VarName::ChannelName => "channel_name"@,
        VarName::RocketchatServerId => "rocketchat_server_id"@,
        VarName::MaxRocketchatServerIdLength => "max_rocketchat_server_id_length"@,
        VarName::Token => "token"@,
        VarName::Users => "users"@,
    }
}

impl VarName {
    /// The name under which the texts of the catalogue hold this variable.
    pub fn name(&self) -> (name: &'static str)
        ensures
            name@ == name_of(*self),
    {
        match self {
            VarName::AsUrl => "as_url",
            VarName::ServerList => "server_list",
            VarName::RocketchatUrl => "rocketchat_url",
            VarName::MatrixUserId => "matrix_user_id",
            VarName::ChannelList => "channel_list",
            VarName::ChannelName => "channel_name",
            VarName::RocketchatServerId => "rocketchat_server_id",
            VarName::MaxRocketchatServerIdLength => "max_rocketchat_server_id_length",
            VarName::Token => "token",
            VarName::Users => "users",
        }
    }
}

} // verus!
