//! Telling users what went wrong.

use vstd::prelude::*;
use crate::api::exchange::{give, reached, Body, BodyView, Halt, ReplyView, Step, Transcript};
use crate::api::matrix;
use crate::api::matrix::MatrixApi;
use crate::config::{bot_user_id, Config, ConfigView};
use crate::errors::{Error, ErrorView};

verus! {

/// What [`ErrorNotifier::send_message_to_user`] gives over the answers `pending`: the
/// message of an error that has one is sent into the room, in the bot's name; of an error
/// that has none, nobody is told.
pub open spec fn send_message_to_user(
    pending: Seq<ReplyView>,
    config: ConfigView,
    error: ErrorView,
    room_id: Seq<char>,
) -> Step<()> {
    match error.user_message {
        Some(message) => matrix::send_text_message_event(
            pending,
            room_id,
            bot_user_id(config),
            BodyView::Localized(message),
        ),
        None => give((), pending),
    }
}

/// Tells users what went wrong.
#[derive(Debug, PartialEq, Eq)]
pub struct ErrorNotifier<'a> {
    /// The configuration of the application service.
    pub config: &'a Config,
}

impl<'a> ErrorNotifier<'a> {
    /// Sends the message of `error` into the room, in the bot's name. Of an error that has
    /// no message for the user, nobody is told.
    pub fn send_message_to_user(&self, calls: &mut Transcript, error: &Error, room_id: &str) -> (result:
        Result<(), Halt>)
        ensures
            reached(result, final(calls).pending()) == send_message_to_user(
                old(calls).pending(),
                self.config.deep_view(),
                error.deep_view(),
                room_id@,
            ),
    {
        match &error.user_message {
            Some(message) => {
                let bot = self.config.bot_user_id();
                MatrixApi::send_text_message_event(
                    calls,
                    room_id,
                    bot.as_str(),
                    Body::Localized(message.clone()),
                )
            },
            None => Ok(()),
        }
    }
}

} // verus!
