//! The calls that the bridge makes to the homeserver.

use vstd::prelude::*;
use crate::api::exchange::{
    as_done,
    as_names,
    as_optional_text,
    as_text,
    reached,
    reply_to,
    step,
    Body,
    BodyView,
    Halt,
    PowerLevels,
    PowerLevelsView,
    Reply,
    ReplyView,
    Request,
    RequestView,
    Step,
    Transcript,
};
use crate::errors::Error;
use crate::text::text;

verus! {

/// What [`MatrixApi::get_room_topic`] gives over the answers `pending`.
pub open spec fn get_room_topic(pending: Seq<ReplyView>, room_id: Seq<char>) -> Step<Option<Seq<char>>> {
    step(as_optional_text(reply_to(pending, RequestView::GetRoomTopic { room_id })), pending)
}

/// What [`MatrixApi::get_room_members`] gives over the answers `pending`.
pub open spec fn get_room_members(pending: Seq<ReplyView>, room_id: Seq<char>) -> Step<Seq<Seq<char>>> {
    step(as_names(reply_to(pending, RequestView::GetRoomMembers { room_id })), pending)
}

/// What [`MatrixApi::get_room_creator`] gives over the answers `pending`.
pub open spec fn get_room_creator(pending: Seq<ReplyView>, room_id: Seq<char>) -> Step<Seq<char>> {
    step(as_text(reply_to(pending, RequestView::GetRoomCreator { room_id })), pending)
}

/// What [`MatrixApi::get_room_alias`] gives over the answers `pending`.
pub open spec fn get_room_alias(pending: Seq<ReplyView>, alias: Seq<char>) -> Step<Option<Seq<char>>> {
    step(as_optional_text(reply_to(pending, RequestView::GetRoomAlias { alias })), pending)
}

/// What [`MatrixApi::get_room_canonical_alias`] gives over the answers `pending`.
pub open spec fn get_room_canonical_alias(pending: Seq<ReplyView>, room_id: Seq<char>) -> Step<Option<Seq<char>>> {
    step(as_optional_text(reply_to(pending, RequestView::GetCanonicalAlias { room_id })), pending)
}

/// The error code with which a homeserver refuses to register a user whose id is taken.
pub open spec fn user_in_use() -> Seq<char> {
    seq!['M', '_', 'U', 'S', 'E', 'R', '_', 'I', 'N', '_', 'U', 'S', 'E']
}

/// Whether the first of the answers `pending` says that the user is registered already.
pub open spec fn registered_before(pending: Seq<ReplyView>) -> bool {
    pending.len() > 0 && pending[0] is Refused && pending[0]->Refused_0 == user_in_use()
}

/// What [`MatrixApi::register`] gives over the answers `pending`. A user who is registered
/// already is registered: that the homeserver refuses the call because the id is in use
/// counts as success, so that the call can be made again.
pub open spec fn register(pending: Seq<ReplyView>, username: Seq<char>) -> Step<()> {
    if registered_before(pending) {
        step(Ok(()), pending)
    } else {
        step(as_done(reply_to(pending, RequestView::Register { username })), pending)
    }
}

/// What [`MatrixApi::create_room`] gives over the answers `pending`.
pub open spec fn create_room(pending: Seq<ReplyView>, room_name: Option<Seq<char>>, room_alias_name: Option<Seq<char>>, creator_id: Seq<char>) -> Step<Seq<char>> {
    step(as_text(reply_to(pending, RequestView::CreateRoom { room_name, room_alias_name, creator_id })), pending)
}

/// What [`MatrixApi::set_default_powerlevels`] gives over the answers `pending`.
pub open spec fn set_default_powerlevels(pending: Seq<ReplyView>, room_id: Seq<char>, power_levels: PowerLevelsView) -> Step<()> {
    step(as_done(reply_to(pending, RequestView::SetDefaultPowerlevels { room_id, power_levels })), pending)
}

/// What [`MatrixApi::invite`] gives over the answers `pending`.
pub open spec fn invite(pending: Seq<ReplyView>, room_id: Seq<char>, user_id: Seq<char>, sender_id: Seq<char>) -> Step<()> {
    step(as_done(reply_to(pending, RequestView::Invite { room_id, user_id, sender_id })), pending)
}

/// What [`MatrixApi::join`] gives over the answers `pending`.
pub open spec fn join(pending: Seq<ReplyView>, room_id: Seq<char>, user_id: Seq<char>) -> Step<()> {
    step(as_done(reply_to(pending, RequestView::Join { room_id, user_id })), pending)
}

/// What [`MatrixApi::leave_room`] gives over the answers `pending`.
pub open spec fn leave_room(pending: Seq<ReplyView>, room_id: Seq<char>, user_id: Seq<char>) -> Step<()> {
    step(as_done(reply_to(pending, RequestView::LeaveRoom { room_id, user_id })), pending)
}

/// What [`MatrixApi::forget_room`] gives over the answers `pending`.
pub open spec fn forget_room(pending: Seq<ReplyView>, room_id: Seq<char>) -> Step<()> {
    step(as_done(reply_to(pending, RequestView::ForgetRoom { room_id })), pending)
}

/// What [`MatrixApi::put_canonical_room_alias`] gives over the answers `pending`.
pub open spec fn put_canonical_room_alias(pending: Seq<ReplyView>, room_id: Seq<char>, canonical_alias: Option<Seq<char>>) -> Step<()> {
    step(as_done(reply_to(pending, RequestView::PutCanonicalRoomAlias { room_id, canonical_alias })), pending)
}

/// What [`MatrixApi::delete_room_alias`] gives over the answers `pending`.
pub open spec fn delete_room_alias(pending: Seq<ReplyView>, alias: Seq<char>) -> Step<()> {
    step(as_done(reply_to(pending, RequestView::DeleteRoomAlias { alias })), pending)
}

/// What [`MatrixApi::set_room_topic`] gives over the answers `pending`.
pub open spec fn set_room_topic(pending: Seq<ReplyView>, room_id: Seq<char>, topic: Seq<char>) -> Step<()> {
    step(as_done(reply_to(pending, RequestView::SetRoomTopic { room_id, topic })), pending)
}

/// What [`MatrixApi::set_room_name`] gives over the answers `pending`.
pub open spec fn set_room_name(pending: Seq<ReplyView>, room_id: Seq<char>, name: BodyView) -> Step<()> {
    step(as_done(reply_to(pending, RequestView::SetRoomName { room_id, name })), pending)
}

/// What [`MatrixApi::send_text_message_event`] gives over the answers `pending`.
pub open spec fn send_text_message_event(pending: Seq<ReplyView>, room_id: Seq<char>, sender_id: Seq<char>, body: BodyView) -> Step<()> {
    step(as_done(reply_to(pending, RequestView::SendTextMessageEvent { room_id, sender_id, body })), pending)
}

/// What [`MatrixApi::set_display_name`] gives over the answers `pending`.
pub open spec fn set_display_name(pending: Seq<ReplyView>, user_id: Seq<char>, display_name: Seq<char>) -> Step<()> {
    step(as_done(reply_to(pending, RequestView::SetDisplayName { user_id, display_name })), pending)
}

/// The homeserver, as the bridge calls it.
#[derive(Debug, PartialEq, Eq)]
pub struct MatrixApi;

impl MatrixApi {
    /// The topic of the room, if it has one.
    pub fn get_room_topic(calls: &mut Transcript, room_id: &str) -> (result: Result<Option<String>, Halt>)
        ensures
            reached(result, final(calls).pending()) == self::get_room_topic(old(calls).pending(), room_id@),
    {
        calls.optional_text(Request::GetRoomTopic { room_id: text(room_id) })
    }

    /// The ids of the users that are joined to the room.
    pub fn get_room_members(calls: &mut Transcript, room_id: &str) -> (result: Result<Vec<String>, Halt>)
        ensures
            reached(result, final(calls).pending()) == self::get_room_members(old(calls).pending(), room_id@),
    {
        calls.names(Request::GetRoomMembers { room_id: text(room_id) })
    }

    /// The id of the user who created the room.
    pub fn get_room_creator(calls: &mut Transcript, room_id: &str) -> (result: Result<String, Halt>)
        ensures
            reached(result, final(calls).pending()) == self::get_room_creator(old(calls).pending(), room_id@),
    {
        calls.text(Request::GetRoomCreator { room_id: text(room_id) })
    }

    /// The id of the room that the alias stands for, if it stands for one.
    pub fn get_room_alias(calls: &mut Transcript, alias: &str) -> (result: Result<Option<String>, Halt>)
        ensures
            reached(result, final(calls).pending()) == self::get_room_alias(old(calls).pending(), alias@),
    {
        calls.optional_text(Request::GetRoomAlias { alias: text(alias) })
    }

    /// The canonical alias of the room, if it has one.
    pub fn get_room_canonical_alias(calls: &mut Transcript, room_id: &str) -> (result: Result<Option<String>, Halt>)
        ensures
            reached(result, final(calls).pending()) == self::get_room_canonical_alias(old(calls).pending(), room_id@),
    {
        calls.optional_text(Request::GetCanonicalAlias { room_id: text(room_id) })
    }

    /// Registers the user of the application service's namespace whose id has the local
    /// part `username`.
    pub fn register(calls: &mut Transcript, username: &str) -> (result: Result<(), Halt>)
        ensures
            reached(result, final(calls).pending()) == self::register(old(calls).pending(), username@),
    {
        proof {
            reveal_strlit("M_USER_IN_USE");
        }
        assert("M_USER_IN_USE"@ =~= user_in_use());
        match calls.ask(Request::Register { username: text(username) }) {
            Ok(Reply::Done) => Ok(()),
            Ok(Reply::Refused(code, cause)) => {
                if *code == text("M_USER_IN_USE") {
                    Ok(())
                } else {
                    Err(Halt::Fail(Error::transport(cause.clone())))
                }
            },
            Ok(Reply::Failed(cause)) => Err(Halt::Fail(Error::transport(cause.clone()))),
            Ok(_) => Err(Halt::Fail(Error::unexpected_reply())),
            Err(halt) => Err(halt),
        }
    }

    /// Creates a room and gives its id.
    pub fn create_room(calls: &mut Transcript, room_name: Option<String>, room_alias_name: Option<String>, creator_id: &str) -> (result: Result<String, Halt>)
        ensures
            reached(result, final(calls).pending()) == self::create_room(old(calls).pending(), room_name.deep_view(), room_alias_name.deep_view(), creator_id@),
    {
        calls.text(Request::CreateRoom { room_name, room_alias_name, creator_id: text(creator_id) })
    }

    /// Sets the power levels of the room.
    pub fn set_default_powerlevels(calls: &mut Transcript, room_id: &str, power_levels: PowerLevels) -> (result: Result<(), Halt>)
        ensures
            reached(result, final(calls).pending()) == self::set_default_powerlevels(old(calls).pending(), room_id@, power_levels.deep_view()),
    {
        calls.done(Request::SetDefaultPowerlevels { room_id: text(room_id), power_levels })
    }

    /// Lets `sender_id` invite `user_id` into the room.
    pub fn invite(calls: &mut Transcript, room_id: &str, user_id: &str, sender_id: &str) -> (result: Result<(), Halt>)
        ensures
            reached(result, final(calls).pending()) == self::invite(old(calls).pending(), room_id@, user_id@, sender_id@),
    {
        calls.done(Request::Invite { room_id: text(room_id), user_id: text(user_id), sender_id: text(sender_id) })
    }

    /// Lets the user join the room.
    pub fn join(calls: &mut Transcript, room_id: &str, user_id: &str) -> (result: Result<(), Halt>)
        ensures
            reached(result, final(calls).pending()) == self::join(old(calls).pending(), room_id@, user_id@),
    {
        calls.done(Request::Join { room_id: text(room_id), user_id: text(user_id) })
    }

    /// Lets the user leave the room.
    pub fn leave_room(calls: &mut Transcript, room_id: &str, user_id: &str) -> (result: Result<(), Halt>)
        ensures
            reached(result, final(calls).pending()) == self::leave_room(old(calls).pending(), room_id@, user_id@),
    {
        calls.done(Request::LeaveRoom { room_id: text(room_id), user_id: text(user_id) })
    }

    /// Lets the bot forget the room.
    pub fn forget_room(calls: &mut Transcript, room_id: &str) -> (result: Result<(), Halt>)
        ensures
            reached(result, final(calls).pending()) == self::forget_room(old(calls).pending(), room_id@),
    {
        calls.done(Request::ForgetRoom { room_id: text(room_id) })
    }

    /// Sets the canonical alias of the room, or clears it.
    pub fn put_canonical_room_alias(calls: &mut Transcript, room_id: &str, canonical_alias: Option<String>) -> (result: Result<(), Halt>)
        ensures
            reached(result, final(calls).pending()) == self::put_canonical_room_alias(old(calls).pending(), room_id@, canonical_alias.deep_view()),
    {
        calls.done(Request::PutCanonicalRoomAlias { room_id: text(room_id), canonical_alias })
    }

    /// Deletes the alias.
    pub fn delete_room_alias(calls: &mut Transcript, alias: &str) -> (result: Result<(), Halt>)
        ensures
            reached(result, final(calls).pending()) == self::delete_room_alias(old(calls).pending(), alias@),
    {
        calls.done(Request::DeleteRoomAlias { alias: text(alias) })
    }

    /// Sets the topic of the room.
    pub fn set_room_topic(calls: &mut Transcript, room_id: &str, topic: &str) -> (result: Result<(), Halt>)
        ensures
            reached(result, final(calls).pending()) == self::set_room_topic(old(calls).pending(), room_id@, topic@),
    {
        calls.done(Request::SetRoomTopic { room_id: text(room_id), topic: text(topic) })
    }

    /// Sets the name of the room.
    pub fn set_room_name(calls: &mut Transcript, room_id: &str, name: Body) -> (result: Result<(), Halt>)
        ensures
            reached(result, final(calls).pending()) == self::set_room_name(old(calls).pending(), room_id@, name.deep_view()),
    {
        calls.done(Request::SetRoomName { room_id: text(room_id), name })
    }

    /// Lets `sender_id` send a text message into the room.
    pub fn send_text_message_event(calls: &mut Transcript, room_id: &str, sender_id: &str, body: Body) -> (result: Result<(), Halt>)
        ensures
            reached(result, final(calls).pending()) == self::send_text_message_event(old(calls).pending(), room_id@, sender_id@, body.deep_view()),
    {
        calls.done(Request::SendTextMessageEvent { room_id: text(room_id), sender_id: text(sender_id), body })
    }

    /// Sets the display name of the user.
    pub fn set_display_name(calls: &mut Transcript, user_id: &str, display_name: &str) -> (result: Result<(), Halt>)
        ensures
            reached(result, final(calls).pending()) == self::set_display_name(old(calls).pending(), user_id@, display_name@),
    {
        calls.done(Request::SetDisplayName { user_id: text(user_id), display_name: text(display_name) })
    }

}

} // verus!
