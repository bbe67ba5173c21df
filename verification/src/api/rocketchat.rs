//! The Rocket.Chat servers: the channels they report, the messages they send, and the calls
//! that the bridge makes to them.

use vstd::prelude::*;
use crate::api::exchange::{
    as_channels,
    as_credentials,
    as_done,
    as_text,
    reached,
    reply_to,
    step,
    Halt,
    ReplyView,
    Request,
    RequestView,
    Step,
    Transcript,
};
use crate::text::text;

verus! {

/// A channel of a Rocket.Chat server.
#[derive(Debug, PartialEq, Eq)]
pub struct Channel {
    /// The id of the channel.
    pub id: String,
    /// The name of the channel; a room for direct messages has none.
    pub name: Option<String>,
    /// The names of the users that are in the channel.
    pub usernames: Vec<String>,
}

/// The mathematical value of a [`Channel`].
pub struct ChannelView {
    /// The id of the channel.
    pub id: Seq<char>,
    /// The name of the channel.
    pub name: Option<Seq<char>>,
    /// The names of the users that are in the channel.
    pub usernames: Seq<Seq<char>>,
}

impl DeepView for Channel {
    type V = ChannelView;

    open spec fn deep_view(&self) -> ChannelView {
        ChannelView {
            id: self.id@,
            name: self.name.deep_view(),
            usernames: self.usernames.deep_view(),
        }
    }
}

impl Clone for Channel {
    fn clone(&self) -> (copy: Self)
        ensures
            copy.deep_view() == self.deep_view(),
    {
        let usernames = self.usernames.clone();
        Channel { id: self.id.clone(), name: self.name.clone(), usernames }
    }
}

/// The name under which a channel is shown: its name, or its id where it has none.
pub open spec fn display_name(channel: ChannelView) -> Seq<char> {
    match channel.name {
        Some(name) => name,
        None => channel.id,
    }
}

impl Channel {
    /// The name under which the channel is shown.
    pub fn display_name(&self) -> (name: String)
        ensures
            name@ == display_name(self.deep_view()),
    {
        match &self.name {
            Some(name) => name.clone(),
            None => self.id.clone(),
        }
    }
}

/// A message that a Rocket.Chat server sends to the bridge.
#[derive(Debug, PartialEq, Eq)]
pub struct Message {
    /// The id of the message.
    pub message_id: String,
    /// The token of the server, if it sent one.
    pub token: Option<String>,
    /// The id of the channel that the message was posted in.
    pub channel_id: String,
    /// The name of that channel; a message in a room for direct messages has none.
    pub channel_name: Option<String>,
    /// The id of the user who posted the message.
    pub user_id: String,
    /// The name of that user.
    pub user_name: String,
    /// The text of the message.
    pub text: String,
}

/// The mathematical value of a [`Message`].
pub struct MessageView {
    /// The id of the message.
    pub message_id: Seq<char>,
    /// The token of the server.
    pub token: Option<Seq<char>>,
    /// The id of the channel.
    pub channel_id: Seq<char>,
    /// The name of the channel.
    pub channel_name: Option<Seq<char>>,
    /// The id of the user who posted the message.
    pub user_id: Seq<char>,
    /// The name of that user.
    pub user_name: Seq<char>,
    /// The text of the message.
    pub text: Seq<char>,
}

impl DeepView for Message {
    type V = MessageView;

    open spec fn deep_view(&self) -> MessageView {
        MessageView {
            message_id: self.message_id@,
            token: self.token.deep_view(),
            channel_id: self.channel_id@,
            channel_name: self.channel_name.deep_view(),
            user_id: self.user_id@,
            user_name: self.user_name@,
            text: self.text@,
        }
    }
}

/// A Rocket.Chat server as the bridge calls it: its address, and the id and the token of
/// the user in whose name the calls are made.
#[derive(Debug, PartialEq, Eq)]
pub struct RocketchatApi {
    /// The address of the server.
    pub rocketchat_url: String,
    /// The id of the user on the server; empty where calls are made in nobody's name.
    pub user_id: String,
    /// The token of the user; empty where calls are made in nobody's name.
    pub auth_token: String,
}

/// The mathematical value of a [`RocketchatApi`].
pub struct RocketchatApiView {
    /// The address of the server.
    pub rocketchat_url: Seq<char>,
    /// The id of the user on the server.
    pub user_id: Seq<char>,
    /// The token of the user.
    pub auth_token: Seq<char>,
}

impl DeepView for RocketchatApi {
    type V = RocketchatApiView;

    open spec fn deep_view(&self) -> RocketchatApiView {
        RocketchatApiView {
            rocketchat_url: self.rocketchat_url@,
            user_id: self.user_id@,
            auth_token: self.auth_token@,
        }
    }
}

/// The server at `rocketchat_url`, called in nobody's name.
pub open spec fn anonymous(rocketchat_url: Seq<char>) -> RocketchatApiView {
    RocketchatApiView { rocketchat_url, user_id: Seq::empty(), auth_token: Seq::empty() }
}

/// What [`RocketchatApi::new`] gives over the answers `pending`: the server, once it has
/// answered the probe.
pub open spec fn connected(pending: Seq<ReplyView>, rocketchat_url: Seq<char>) -> Step<
    RocketchatApiView,
> {
    match as_done(reply_to(pending, RequestView::Probe { rocketchat_url })) {
        Ok(_) => step(Ok(anonymous(rocketchat_url)), pending),
        Err(halt) => step(Err(halt), pending),
    }
}

/// What [`RocketchatApi::login`] gives over the answers `pending`.
pub open spec fn logged_in(
    pending: Seq<ReplyView>,
    api: RocketchatApiView,
    username: Seq<char>,
    password: Seq<char>,
) -> Step<(Seq<char>, Seq<char>)> {
    step(
        as_credentials(
            reply_to(
                pending,
                RequestView::Login { rocketchat_url: api.rocketchat_url, username, password },
            ),
        ),
        pending,
    )
}

/// What [`RocketchatApi::channels_list`] gives over the answers `pending`.
pub open spec fn channels_list(pending: Seq<ReplyView>, api: RocketchatApiView) -> Step<
    Seq<ChannelView>,
> {
    step(
        as_channels(
            reply_to(
                pending,
                RequestView::ChannelsList {
                    rocketchat_url: api.rocketchat_url,
                    user_id: api.user_id,
                    auth_token: api.auth_token,
                },
            ),
        ),
        pending,
    )
}

/// What [`RocketchatApi::direct_messages_list`] gives over the answers `pending`.
pub open spec fn direct_messages_list(pending: Seq<ReplyView>, api: RocketchatApiView) -> Step<
    Seq<ChannelView>,
> {
    step(
        as_channels(
            reply_to(
                pending,
                RequestView::DirectMessagesList {
                    rocketchat_url: api.rocketchat_url,
                    user_id: api.user_id,
                    auth_token: api.auth_token,
                },
            ),
        ),
        pending,
    )
}

/// What [`RocketchatApi::users_info`] gives over the answers `pending`.
pub open spec fn users_info(
    pending: Seq<ReplyView>,
    api: RocketchatApiView,
    username: Seq<char>,
) -> Step<Seq<char>> {
    step(
        as_text(
            reply_to(
                pending,
                RequestView::UsersInfo {
                    rocketchat_url: api.rocketchat_url,
                    user_id: api.user_id,
                    auth_token: api.auth_token,
                    username,
                },
            ),
        ),
        pending,
    )
}

/// What [`RocketchatApi::post_chat_message`] gives over the answers `pending`.
pub open spec fn post_chat_message(
    pending: Seq<ReplyView>,
    api: RocketchatApiView,
    channel_id: Seq<char>,
    text: Seq<char>,
) -> Step<()> {
    step(
        as_done(
            reply_to(
                pending,
                RequestView::PostChatMessage {
                    rocketchat_url: api.rocketchat_url,
                    user_id: api.user_id,
                    auth_token: api.auth_token,
                    channel_id,
                    text,
                },
            ),
        ),
        pending,
    )
}

impl RocketchatApi {
    /// The server at `rocketchat_url`, after it has answered and has shown that it speaks
    /// a version of the API that is supported.
    pub fn new(calls: &mut Transcript, rocketchat_url: String) -> (api: Result<RocketchatApi, Halt>)
        ensures
            reached(api, final(calls).pending()) == connected(old(calls).pending(), rocketchat_url@),
    {
        match calls.done(Request::Probe { rocketchat_url: rocketchat_url.clone() }) {
            Ok(()) => {
                let api = RocketchatApi {
                    rocketchat_url,
                    user_id: String::new(),
                    auth_token: String::new(),
                };
                Ok(api)
            },
            Err(halt) => Err(halt),
        }
    }

    /// This server, called in the name of the user of the given id and token.
    pub fn with_credentials(self, user_id: String, auth_token: String) -> (api: RocketchatApi)
        ensures
            api.deep_view() == (RocketchatApiView {
                rocketchat_url: self.rocketchat_url@,
                user_id: user_id@,
                auth_token: auth_token@,
            }),
    {
        RocketchatApi { rocketchat_url: self.rocketchat_url, user_id, auth_token }
    }

    /// Logs a user in and gives the user's id and token.
    pub fn login(&self, calls: &mut Transcript, username: &str, password: &str) -> (result: Result<
        (String, String),
        Halt,
    >)
        ensures
            reached(result, final(calls).pending()) == logged_in(
                old(calls).pending(),
                self.deep_view(),
                username@,
                password@,
            ),
    {
        calls.credentials(
            Request::Login {
                rocketchat_url: self.rocketchat_url.clone(),
                username: text(username),
                password: text(password),
            },
        )
    }

    /// The channels of the server.
    pub fn channels_list(&self, calls: &mut Transcript) -> (result: Result<Vec<Channel>, Halt>)
        ensures
            reached(result, final(calls).pending()) == channels_list(old(calls).pending(), self.deep_view()),
    {
        calls.channels(
            Request::ChannelsList {
                rocketchat_url: self.rocketchat_url.clone(),
                user_id: self.user_id.clone(),
                auth_token: self.auth_token.clone(),
            },
        )
    }

    /// The rooms for direct messages of the server. Such a room has no name.
    pub fn direct_messages_list(&self, calls: &mut Transcript) -> (result: Result<Vec<Channel>, Halt>)
        ensures
            reached(result, final(calls).pending()) == direct_messages_list(
                old(calls).pending(),
                self.deep_view(),
            ),
    {
        calls.channels(
            Request::DirectMessagesList {
                rocketchat_url: self.rocketchat_url.clone(),
                user_id: self.user_id.clone(),
                auth_token: self.auth_token.clone(),
            },
        )
    }

    /// The id of the user of the given name.
    pub fn users_info(&self, calls: &mut Transcript, username: &str) -> (result: Result<String, Halt>)
        ensures
            reached(result, final(calls).pending()) == users_info(old(calls).pending(), self.deep_view(), username@),
    {
        calls.text(
            Request::UsersInfo {
                rocketchat_url: self.rocketchat_url.clone(),
                user_id: self.user_id.clone(),
                auth_token: self.auth_token.clone(),
                username: text(username),
            },
        )
    }

    /// Posts `message` into the channel of the given id.
    pub fn post_chat_message(&self, calls: &mut Transcript, channel_id: &str, message: &str) -> (result:
        Result<(), Halt>)
        ensures
            reached(result, final(calls).pending()) == post_chat_message(
                old(calls).pending(),
                self.deep_view(),
                channel_id@,
                message@,
            ),
    {
        calls.done(
            Request::PostChatMessage {
                rocketchat_url: self.rocketchat_url.clone(),
                user_id: self.user_id.clone(),
                auth_token: self.auth_token.clone(),
                channel_id: text(channel_id),
                text: text(message),
            },
        )
    }
}

} // verus!
