//! The exchange with the homeserver and the Rocket.Chat servers, as values: what the
//! bridge asks for, what comes back, and the record of what came back so far.
//!
//! The bridge makes no call itself. A handler runs over the answers that are there already;
//! where it needs one more it stops and names the call. Whoever drives it makes that call,
//! adds the answer to the record and runs the handler again, until it ends.

use vstd::prelude::*;
use crate::api::rocketchat::{Channel, ChannelView};
use crate::errors::{transport, unexpected_reply, Error, ErrorView};
use crate::i18n::{Message, MessageView};

verus! {

/// The text of a message or of a name: as it stands, or as an entry of the catalogue of
/// translations.
#[derive(Debug, PartialEq, Eq)]
pub enum Body {
    /// A text that stands as it is.
    Plain(String),
    /// A message that is yet to be translated.
    Localized(Message),
}

/// The mathematical value of a [`Body`].
pub enum BodyView {
    /// A text that stands as it is.
    Plain(Seq<char>),
    /// A message that is yet to be translated.
    Localized(MessageView),
}

impl DeepView for Body {
    type V = BodyView;

    open spec fn deep_view(&self) -> BodyView {
        match self {
            Body::Plain(t) => BodyView::Plain(t@),
            Body::Localized(m) => BodyView::Localized(m.deep_view()),
        }
    }
}

/// The power levels of a bridged room.
#[derive(Debug, PartialEq, Eq)]
pub struct PowerLevels {
    /// The bot, who administers the room.
    pub bot_id: String,
    /// The level of the bot.
    pub bot_level: u32,
    /// The user for whom the room was bridged.
    pub bridger_id: String,
    /// The level of that user.
    pub bridger_level: u32,
    /// The level of everyone else.
    pub users_default: u32,
    /// The level that it takes to change the state of the room.
    pub state_default: u32,
    /// The level that it takes to send a message.
    pub events_default: u32,
}

/// The mathematical value of [`PowerLevels`].
pub struct PowerLevelsView {
    /// The bot, who administers the room.
    pub bot_id: Seq<char>,
    /// The level of the bot.
    pub bot_level: u32,
    /// The user for whom the room was bridged.
    pub bridger_id: Seq<char>,
    /// The level of that user.
    pub bridger_level: u32,
    /// The level of everyone else.
    pub users_default: u32,
    /// The level that it takes to change the state of the room.
    pub state_default: u32,
    /// The level that it takes to send a message.
    pub events_default: u32,
}

impl DeepView for PowerLevels {
    type V = PowerLevelsView;

    open spec fn deep_view(&self) -> PowerLevelsView {
        PowerLevelsView {
            bot_id: self.bot_id@,
            bot_level: self.bot_level,
            bridger_id: self.bridger_id@,
            bridger_level: self.bridger_level,
            users_default: self.users_default,
            state_default: self.state_default,
            events_default: self.events_default,
        }
    }
}

/// A call that the bridge asks for.
#[derive(Debug, PartialEq, Eq)]
pub enum Request {
    /// The topic of a room, if it has one.
    GetRoomTopic {
        room_id: String,
    },
    /// The ids of the users that are joined to a room.
    GetRoomMembers {
        room_id: String,
    },
    /// The id of the user who created a room.
    GetRoomCreator {
        room_id: String,
    },
    /// The id of the room that an alias stands for, if it stands for one.
    GetRoomAlias {
        alias: String,
    },
    /// The canonical alias of a room, if it has one.
    GetCanonicalAlias {
        room_id: String,
    },
    /// Register, with the homeserver, the user of the application service's namespace whose
    /// id has the local part `username`.
    Register {
        username: String,
    },
    /// Create a room and give its id.
    CreateRoom {
        room_name: Option<String>,
        room_alias_name: Option<String>,
        creator_id: String,
    },
    /// Set the power levels of a room.
    SetDefaultPowerlevels {
        room_id: String,
        power_levels: PowerLevels,
    },
    /// Let `sender_id` invite `user_id` into a room.
    Invite {
        room_id: String,
        user_id: String,
        sender_id: String,
    },
    /// Let a user join a room.
    Join {
        room_id: String,
        user_id: String,
    },
    /// Let a user leave a room.
    LeaveRoom {
        room_id: String,
        user_id: String,
    },
    /// Let the bot forget a room that it left.
    ForgetRoom {
        room_id: String,
    },
    /// Set the canonical alias of a room, or clear it.
    PutCanonicalRoomAlias {
        room_id: String,
        canonical_alias: Option<String>,
    },
    /// Delete an alias.
    DeleteRoomAlias {
        alias: String,
    },
    /// Set the topic of a room.
    SetRoomTopic {
        room_id: String,
        topic: String,
    },
    /// Set the name of a room.
    SetRoomName {
        room_id: String,
        name: Body,
    },
    /// Let `sender_id` send a text message into a room.
    SendTextMessageEvent {
        room_id: String,
        sender_id: String,
        body: Body,
    },
    /// Set the display name of a user.
    SetDisplayName {
        user_id: String,
        display_name: String,
    },
    /// See whether a Rocket.Chat server answers and speaks a version of the API that is supported.
    Probe {
        rocketchat_url: String,
    },
    /// Log a user in on a Rocket.Chat server and give the user's id and token.
    Login {
        rocketchat_url: String,
        username: String,
        password: String,
    },
    /// The channels of a Rocket.Chat server, as a user sees them.
    ChannelsList {
        rocketchat_url: String,
        user_id: String,
        auth_token: String,
    },
    /// The rooms for direct messages of a Rocket.Chat server, as a user sees them.
    DirectMessagesList {
        rocketchat_url: String,
        user_id: String,
        auth_token: String,
    },
    /// The id of the user of a name on a Rocket.Chat server.
    UsersInfo {
        rocketchat_url: String,
        user_id: String,
        auth_token: String,
        username: String,
    },
    /// Post a message into a channel of a Rocket.Chat server.
    PostChatMessage {
        rocketchat_url: String,
        user_id: String,
        auth_token: String,
        channel_id: String,
        text: String,
    },
}

/// The mathematical value of a [`Request`].
pub enum RequestView {
    /// The topic of a room, if it has one.
    GetRoomTopic {
        room_id: Seq<char>,
    },
    /// The ids of the users that are joined to a room.
    GetRoomMembers {
        room_id: Seq<char>,
    },
    /// The id of the user who created a room.
    GetRoomCreator {
        room_id: Seq<char>,
    },
    /// The id of the room that an alias stands for, if it stands for one.
    GetRoomAlias {
        alias: Seq<char>,
    },
    /// The canonical alias of a room, if it has one.
    GetCanonicalAlias {
        room_id: Seq<char>,
    },
    /// Register, with the homeserver, the user of the application service's namespace whose
    /// id has the local part `username`.
    Register {
        username: Seq<char>,
    },
    /// Create a room and give its id.
    CreateRoom {
        room_name: Option<Seq<char>>,
        room_alias_name: Option<Seq<char>>,
        creator_id: Seq<char>,
    },
    /// Set the power levels of a room.
    SetDefaultPowerlevels {
        room_id: Seq<char>,
        power_levels: PowerLevelsView,
    },
    /// Let `sender_id` invite `user_id` into a room.
    Invite {
        room_id: Seq<char>,
        user_id: Seq<char>,
        sender_id: Seq<char>,
    },
    /// Let a user join a room.
    Join {
        room_id: Seq<char>,
        user_id: Seq<char>,
    },
    /// Let a user leave a room.
    LeaveRoom {
        room_id: Seq<char>,
        user_id: Seq<char>,
    },
    /// Let the bot forget a room that it left.
    ForgetRoom {
        room_id: Seq<char>,
    },
    /// Set the canonical alias of a room, or clear it.
    PutCanonicalRoomAlias {
        room_id: Seq<char>,
        canonical_alias: Option<Seq<char>>,
    },
    /// Delete an alias.
    DeleteRoomAlias {
        alias: Seq<char>,
    },
    /// Set the topic of a room.
    SetRoomTopic {
        room_id: Seq<char>,
        topic: Seq<char>,
    },
    /// Set the name of a room.
    SetRoomName {
        room_id: Seq<char>,
        name: BodyView,
    },
    /// Let `sender_id` send a text message into a room.
    SendTextMessageEvent {
        room_id: Seq<char>,
        sender_id: Seq<char>,
        body: BodyView,
    },
    /// Set the display name of a user.
    SetDisplayName {
        user_id: Seq<char>,
        display_name: Seq<char>,
    },
    /// See whether a Rocket.Chat server answers and speaks a version of the API that is supported.
    Probe {
        rocketchat_url: Seq<char>,
    },
    /// Log a user in on a Rocket.Chat server and give the user's id and token.
    Login {
        rocketchat_url: Seq<char>,
        username: Seq<char>,
        password: Seq<char>,
    },
    /// The channels of a Rocket.Chat server, as a user sees them.
    ChannelsList {
        rocketchat_url: Seq<char>,
        user_id: Seq<char>,
        auth_token: Seq<char>,
    },
    /// The rooms for direct messages of a Rocket.Chat server, as a user sees them.
    DirectMessagesList {
        rocketchat_url: Seq<char>,
        user_id: Seq<char>,
        auth_token: Seq<char>,
    },
    /// The id of the user of a name on a Rocket.Chat server.
    UsersInfo {
        rocketchat_url: Seq<char>,
        user_id: Seq<char>,
        auth_token: Seq<char>,
        username: Seq<char>,
    },
    /// Post a message into a channel of a Rocket.Chat server.
    PostChatMessage {
        rocketchat_url: Seq<char>,
        user_id: Seq<char>,
        auth_token: Seq<char>,
        channel_id: Seq<char>,
        text: Seq<char>,
    },
}

impl DeepView for Request {
    type V = RequestView;

    open spec fn deep_view(&self) -> RequestView {
        match self {
            Request::GetRoomTopic { room_id } => RequestView::GetRoomTopic { room_id: room_id@ },
            Request::GetRoomMembers { room_id } => RequestView::GetRoomMembers { room_id: room_id@ },
            Request::GetRoomCreator { room_id } => RequestView::GetRoomCreator { room_id: room_id@ },
            Request::GetRoomAlias { alias } => RequestView::GetRoomAlias { alias: alias@ },
            Request::GetCanonicalAlias { room_id } => RequestView::GetCanonicalAlias { room_id: room_id@ },
            Request::Register { username } => RequestView::Register { username: username@ },
            Request::CreateRoom { room_name, room_alias_name, creator_id } => RequestView::CreateRoom { room_name: room_name.deep_view(), room_alias_name: room_alias_name.deep_view(), creator_id: creator_id@ },
            Request::SetDefaultPowerlevels { room_id, power_levels } => RequestView::SetDefaultPowerlevels { room_id: room_id@, power_levels: power_levels.deep_view() },
            Request::Invite { room_id, user_id, sender_id } => RequestView::Invite { room_id: room_id@, user_id: user_id@, sender_id: sender_id@ },
            Request::Join { room_id, user_id } => RequestView::Join { room_id: room_id@, user_id: user_id@ },
            Request::LeaveRoom { room_id, user_id } => RequestView::LeaveRoom { room_id: room_id@, user_id: user_id@ },
            Request::ForgetRoom { room_id } => RequestView::ForgetRoom { room_id: room_id@ },
            Request::PutCanonicalRoomAlias { room_id, canonical_alias } => RequestView::PutCanonicalRoomAlias { room_id: room_id@, canonical_alias: canonical_alias.deep_view() },
            Request::DeleteRoomAlias { alias } => RequestView::DeleteRoomAlias { alias: alias@ },
            Request::SetRoomTopic { room_id, topic } => RequestView::SetRoomTopic { room_id: room_id@, topic: topic@ },
            Request::SetRoomName { room_id, name } => RequestView::SetRoomName { room_id: room_id@, name: name.deep_view() },
            Request::SendTextMessageEvent { room_id, sender_id, body } => RequestView::SendTextMessageEvent { room_id: room_id@, sender_id: sender_id@, body: body.deep_view() },
            Request::SetDisplayName { user_id, display_name } => RequestView::SetDisplayName { user_id: user_id@, display_name: display_name@ },
            Request::Probe { rocketchat_url } => RequestView::Probe { rocketchat_url: rocketchat_url@ },
            Request::Login { rocketchat_url, username, password } => RequestView::Login { rocketchat_url: rocketchat_url@, username: username@, password: password@ },
            Request::ChannelsList { rocketchat_url, user_id, auth_token } => RequestView::ChannelsList { rocketchat_url: rocketchat_url@, user_id: user_id@, auth_token: auth_token@ },
            Request::DirectMessagesList { rocketchat_url, user_id, auth_token } => RequestView::DirectMessagesList { rocketchat_url: rocketchat_url@, user_id: user_id@, auth_token: auth_token@ },
            Request::UsersInfo { rocketchat_url, user_id, auth_token, username } => RequestView::UsersInfo { rocketchat_url: rocketchat_url@, user_id: user_id@, auth_token: auth_token@, username: username@ },
            Request::PostChatMessage { rocketchat_url, user_id, auth_token, channel_id, text } => RequestView::PostChatMessage { rocketchat_url: rocketchat_url@, user_id: user_id@, auth_token: auth_token@, channel_id: channel_id@, text: text@ },
        }
    }
}

/// What came back from a call.
#[derive(Debug, PartialEq, Eq)]
pub enum Reply {
    /// The call succeeded and there is nothing to hand back: a change was made, or what was
    /// asked for does not exist.
    Done,
    /// A text: a topic, an alias, the id of a room or of a user.
    Text(String),
    /// Texts: the ids of the members of a room.
    Names(Vec<String>),
    /// The id and the token of a user who logged in on a Rocket.Chat server.
    Credentials(String, String),
    /// The channels of a Rocket.Chat server.
    Channels(Vec<Channel>),
    /// The call failed; the text says how.
    Failed(String),
    /// The call was refused with an error code of the Matrix API, such as
    /// `M_USER_IN_USE`; the second text says how.
    Refused(String, String),
}

/// The mathematical value of a [`Reply`].
pub enum ReplyView {
    /// The call succeeded and there is nothing to hand back.
    Done,
    /// A text.
    Text(Seq<char>),
    /// Texts.
    Names(Seq<Seq<char>>),
    /// The id and the token of a user who logged in.
    Credentials(Seq<char>, Seq<char>),
    /// The channels of a Rocket.Chat server.
    Channels(Seq<ChannelView>),
    /// The call failed; the text says how.
    Failed(Seq<char>),
    /// The call was refused with an error code.
    Refused(Seq<char>, Seq<char>),
}

impl DeepView for Reply {
    type V = ReplyView;

    open spec fn deep_view(&self) -> ReplyView {
        match self {
            Reply::Done => ReplyView::Done,
            Reply::Text(t) => ReplyView::Text(t@),
            Reply::Names(names) => ReplyView::Names(names.deep_view()),
            Reply::Credentials(user_id, auth_token) => ReplyView::Credentials(user_id@, auth_token@),
            Reply::Channels(channels) => ReplyView::Channels(channels.deep_view()),
            Reply::Failed(cause) => ReplyView::Failed(cause@),
            Reply::Refused(code, cause) => ReplyView::Refused(code@, cause@),
        }
    }
}

/// Why a handler stopped before its end.
#[derive(Debug, PartialEq, Eq)]
pub enum Halt {
    /// It needs the answer to this call, and the record holds none yet.
    Ask(Request),
    /// It failed.
    Fail(Error),
}

/// The mathematical value of a [`Halt`].
pub enum HaltView {
    /// The handler needs the answer to this call.
    Ask(RequestView),
    /// The handler failed.
    Fail(ErrorView),
}

impl DeepView for Halt {
    type V = HaltView;

    open spec fn deep_view(&self) -> HaltView {
        match self {
            Halt::Ask(request) => HaltView::Ask(request.deep_view()),
            Halt::Fail(error) => HaltView::Fail(error.deep_view()),
        }
    }
}

/// The mathematical value of what a handler hands back: its result, or why it stopped.
pub open spec fn outcome<T: DeepView>(result: Result<T, Halt>) -> Result<T::V, HaltView> {
    match result {
        Ok(value) => Ok(value.deep_view()),
        Err(halt) => Err(halt.deep_view()),
    }
}

/// The mathematical value of a result whose error is an [`Error`].
pub open spec fn checked<T: DeepView>(result: Result<T, Error>) -> Result<T::V, ErrorView> {
    match result {
        Ok(value) => Ok(value.deep_view()),
        Err(error) => Err(error.deep_view()),
    }
}

/// What a call gives over the answers `pending`: the first of them, the failure that it
/// reports, or the demand for the call where there is no answer yet. A call that was
/// refused has failed, whatever the code.
pub open spec fn reply_to(pending: Seq<ReplyView>, request: RequestView) -> Result<
    ReplyView,
    HaltView,
> {
    if pending.len() == 0 {
        Err(HaltView::Ask(request))
    } else {
        match pending[0] {
            ReplyView::Failed(cause) => Err(HaltView::Fail(transport(cause))),
            ReplyView::Refused(_, cause) => Err(HaltView::Fail(transport(cause))),
            reply => Ok(reply),
        }
    }
}

/// The answers that are left when a call has taken its own from `pending`.
pub open spec fn rest(pending: Seq<ReplyView>) -> Seq<ReplyView> {
    if pending.len() == 0 {
        pending
    } else {
        pending.skip(1)
    }
}

/// The answer to a call that hands back nothing.
pub open spec fn as_done(reply: Result<ReplyView, HaltView>) -> Result<(), HaltView> {
    match reply {
        Ok(ReplyView::Done) => Ok(()),
        Ok(_) => Err(HaltView::Fail(unexpected_reply())),
        Err(halt) => Err(halt),
    }
}

/// The answer to a call that hands back a text.
pub open spec fn as_text(reply: Result<ReplyView, HaltView>) -> Result<Seq<char>, HaltView> {
    match reply {
        Ok(ReplyView::Text(text)) => Ok(text),
        Ok(_) => Err(HaltView::Fail(unexpected_reply())),
        Err(halt) => Err(halt),
    }
}

/// The answer to a call that hands back a text where what was asked for exists.
pub open spec fn as_optional_text(reply: Result<ReplyView, HaltView>) -> Result<
    Option<Seq<char>>,
    HaltView,
> {
    match reply {
        Ok(ReplyView::Text(text)) => Ok(Some(text)),
        Ok(ReplyView::Done) => Ok(None),
        Ok(_) => Err(HaltView::Fail(unexpected_reply())),
        Err(halt) => Err(halt),
    }
}

/// The answer to a call that hands back texts.
pub open spec fn as_names(reply: Result<ReplyView, HaltView>) -> Result<Seq<Seq<char>>, HaltView> {
    match reply {
        Ok(ReplyView::Names(names)) => Ok(names),
        Ok(_) => Err(HaltView::Fail(unexpected_reply())),
        Err(halt) => Err(halt),
    }
}

/// The answer to a call that hands back the id and the token of a user.
pub open spec fn as_credentials(reply: Result<ReplyView, HaltView>) -> Result<
    (Seq<char>, Seq<char>),
    HaltView,
> {
    match reply {
        Ok(ReplyView::Credentials(user_id, auth_token)) => Ok((user_id, auth_token)),
        Ok(_) => Err(HaltView::Fail(unexpected_reply())),
        Err(halt) => Err(halt),
    }
}

/// The answer to a call that hands back channels.
pub open spec fn as_channels(reply: Result<ReplyView, HaltView>) -> Result<
    Seq<ChannelView>,
    HaltView,
> {
    match reply {
        Ok(ReplyView::Channels(channels)) => Ok(channels),
        Ok(_) => Err(HaltView::Fail(unexpected_reply())),
        Err(halt) => Err(halt),
    }
}

/// Where a run stands that changes no record: what it has to show, and the answers that it
/// has left unread.
pub struct Step<T> {
    /// The result of the run, or why it stopped.
    pub result: Result<T, HaltView>,
    /// The answers that the run has not read.
    pub pending: Seq<ReplyView>,
}

/// The step of a call: its result, and the answers that it leaves.
pub open spec fn step<T>(result: Result<T, HaltView>, pending: Seq<ReplyView>) -> Step<T> {
    Step { result, pending: rest(pending) }
}

/// The step that fails with `error` and reads no answer.
pub open spec fn fail<T>(error: ErrorView, pending: Seq<ReplyView>) -> Step<T> {
    Step { result: Err(HaltView::Fail(error)), pending }
}

/// The step that ends with `value` and reads no answer.
pub open spec fn give<T>(value: T, pending: Seq<ReplyView>) -> Step<T> {
    Step { result: Ok(value), pending }
}

/// The step that stops as `halt` says, with the answers `pending` left.
pub open spec fn stop<T>(halt: HaltView, pending: Seq<ReplyView>) -> Step<T> {
    Step { result: Err(halt), pending }
}

/// Where a run stands that handed back `result` and left the answers `pending` unread.
pub open spec fn reached<T: DeepView>(result: Result<T, Halt>, pending: Seq<ReplyView>) -> Step<
    T::V,
> {
    Step { result: outcome(result), pending }
}

/// The record of what came back from the calls of one run, and how far the run has read it.
#[derive(Debug, PartialEq, Eq)]
pub struct Transcript<'a> {
    replies: &'a Vec<Reply>,
    position: usize,
}

impl<'a> Transcript<'a> {
    /// The answers that the run has not read yet.
    pub closed spec fn pending(&self) -> Seq<ReplyView> {
        self.replies.deep_view().skip(self.position as int)
    }

    /// What holds of a record: it has not been read past its end.
    #[verifier::type_invariant]
    spec fn in_bounds(&self) -> bool {
        self.position <= self.replies.len()
    }

    /// The record of `replies`, of which nothing has been read.
    pub fn new(replies: &'a Vec<Reply>) -> (calls: Transcript<'a>)
        ensures
            calls.pending() == replies.deep_view(),
    {
        Transcript { replies, position: 0 }
    }

    /// The answer to `request`: the next one of the record, which is then read; or the
    /// demand for the call, where the record holds no further answer.
    pub fn ask(&mut self, request: Request) -> (reply: Result<&'a Reply, Halt>)
        ensures
            final(self).pending() == rest(old(self).pending()),
            match reply {
                Ok(r) => old(self).pending().len() > 0 && r.deep_view() == old(self).pending()[0],
                Err(halt) => old(self).pending().len() == 0 && halt.deep_view() == HaltView::Ask(
                    request.deep_view(),
                ),
            },
    {
        proof {
            use_type_invariant(&*self);
        }
        if self.position < self.replies.len() {
            let reply = &self.replies[self.position];
            self.position = self.position + 1;
            Ok(reply)
        } else {
            Err(Halt::Ask(request))
        }
    }

    /// The answer to a call that hands back nothing.
    pub fn done(&mut self, request: Request) -> (result: Result<(), Halt>)
        ensures
            final(self).pending() == rest(old(self).pending()),
            outcome(result) == as_done(reply_to(old(self).pending(), request.deep_view())),
    {
        match self.ask(request) {
            Ok(Reply::Done) => Ok(()),
            Ok(Reply::Failed(cause)) => Err(Halt::Fail(Error::transport(cause.clone()))),
            Ok(Reply::Refused(_, cause)) => Err(Halt::Fail(Error::transport(cause.clone()))),
            Ok(_) => Err(Halt::Fail(Error::unexpected_reply())),
            Err(halt) => Err(halt),
        }
    }

    /// The answer to a call that hands back a text.
    pub fn text(&mut self, request: Request) -> (result: Result<String, Halt>)
        ensures
            final(self).pending() == rest(old(self).pending()),
            outcome(result) == as_text(reply_to(old(self).pending(), request.deep_view())),
    {
        match self.ask(request) {
            Ok(Reply::Text(text)) => Ok(text.clone()),
            Ok(Reply::Failed(cause)) => Err(Halt::Fail(Error::transport(cause.clone()))),
            Ok(Reply::Refused(_, cause)) => Err(Halt::Fail(Error::transport(cause.clone()))),
            Ok(_) => Err(Halt::Fail(Error::unexpected_reply())),
            Err(halt) => Err(halt),
        }
    }

    /// The answer to a call that hands back a text where what was asked for exists.
    pub fn optional_text(&mut self, request: Request) -> (result: Result<Option<String>, Halt>)
        ensures
            final(self).pending() == rest(old(self).pending()),
            outcome(result) == as_optional_text(reply_to(old(self).pending(), request.deep_view())),
    {
        match self.ask(request) {
            Ok(Reply::Text(text)) => Ok(Some(text.clone())),
            Ok(Reply::Done) => Ok(None),
            Ok(Reply::Failed(cause)) => Err(Halt::Fail(Error::transport(cause.clone()))),
            Ok(Reply::Refused(_, cause)) => Err(Halt::Fail(Error::transport(cause.clone()))),
            Ok(_) => Err(Halt::Fail(Error::unexpected_reply())),
            Err(halt) => Err(halt),
        }
    }

    /// The answer to a call that hands back texts.
    pub fn names(&mut self, request: Request) -> (result: Result<Vec<String>, Halt>)
        ensures
            final(self).pending() == rest(old(self).pending()),
            outcome(result) == as_names(reply_to(old(self).pending(), request.deep_view())),
    {
        match self.ask(request) {
            Ok(Reply::Names(names)) => {
                let copy = names.clone();
                Ok(copy)
            },
            Ok(Reply::Failed(cause)) => Err(Halt::Fail(Error::transport(cause.clone()))),
            Ok(Reply::Refused(_, cause)) => Err(Halt::Fail(Error::transport(cause.clone()))),
            Ok(_) => Err(Halt::Fail(Error::unexpected_reply())),
            Err(halt) => Err(halt),
        }
    }

    /// The answer to a call that hands back the id and the token of a user.
    pub fn credentials(&mut self, request: Request) -> (result: Result<(String, String), Halt>)
        ensures
            final(self).pending() == rest(old(self).pending()),
            outcome(result) == as_credentials(reply_to(old(self).pending(), request.deep_view())),
    {
        match self.ask(request) {
            Ok(Reply::Credentials(user_id, auth_token)) => Ok((user_id.clone(), auth_token.clone())),
            Ok(Reply::Failed(cause)) => Err(Halt::Fail(Error::transport(cause.clone()))),
            Ok(Reply::Refused(_, cause)) => Err(Halt::Fail(Error::transport(cause.clone()))),
            Ok(_) => Err(Halt::Fail(Error::unexpected_reply())),
            Err(halt) => Err(halt),
        }
    }

    /// The answer to a call that hands back channels.
    pub fn channels(&mut self, request: Request) -> (result: Result<Vec<Channel>, Halt>)
        ensures
            final(self).pending() == rest(old(self).pending()),
            outcome(result) == as_channels(reply_to(old(self).pending(), request.deep_view())),
    {
        match self.ask(request) {
            Ok(Reply::Channels(channels)) => {
                let copy = channels.clone();
                Ok(copy)
            },
            Ok(Reply::Failed(cause)) => Err(Halt::Fail(Error::transport(cause.clone()))),
            Ok(Reply::Refused(_, cause)) => Err(Halt::Fail(Error::transport(cause.clone()))),
            Ok(_) => Err(Halt::Fail(Error::unexpected_reply())),
            Err(halt) => Err(halt),
        }
    }
}

} // verus!
