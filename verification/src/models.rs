//! The events that the homeserver sends, as far as the bridge reads them.

use vstd::prelude::*;

verus! {

/// What a message holds.
#[derive(Debug, PartialEq, Eq)]
pub enum MessageContent {
    /// A text.
    Text(String),
    /// Anything else: an image, a file, a notice.
    Other,
}

/// The mathematical value of a [`MessageContent`].
pub enum MessageContentView {
    /// A text.
    Text(Seq<char>),
    /// Anything else.
    Other,
}

impl DeepView for MessageContent {
    type V = MessageContentView;

    open spec fn deep_view(&self) -> MessageContentView {
        match self {
            MessageContent::Text(body) => MessageContentView::Text(body@),
            MessageContent::Other => MessageContentView::Other,
        }
    }
}

/// A message that was sent into a room.
#[derive(Debug, PartialEq, Eq)]
pub struct MessageEvent {
    /// The room that the message was sent into.
    pub room_id: String,
    /// The user who sent the message.
    pub user_id: String,
    /// What the message holds.
    pub content: MessageContent,
}

/// The mathematical value of a [`MessageEvent`].
pub struct MessageEventView {
    /// The room that the message was sent into.
    pub room_id: Seq<char>,
    /// The user who sent the message.
    pub user_id: Seq<char>,
    /// What the message holds.
    pub content: MessageContentView,
}

impl DeepView for MessageEvent {
    type V = MessageEventView;

    open spec fn deep_view(&self) -> MessageEventView {
        MessageEventView {
            room_id: self.room_id@,
            user_id: self.user_id@,
            content: self.content.deep_view(),
        }
    }
}

/// What a user is to a room.
#[derive(Clone, Copy, Debug, PartialEq, Eq, Structural)]
pub enum MembershipState {
    /// The user is banned from the room.
    Ban,
    /// The user is invited to the room.
    Invite,
    /// The user is in the room.
    Join,
    /// The user asked to be let in.
    Knock,
    /// The user left the room.
    Leave,
}

/// What an event says of the user who sent the event before it, the one that it replaces.
#[derive(Debug, PartialEq, Eq)]
pub enum PrevSender {
    /// Nothing.
    Absent,
    /// A text.
    Text(String),
    /// Something that is no text.
    Other,
}

/// The mathematical value of a [`PrevSender`].
pub enum PrevSenderView {
    /// Nothing.
    Absent,
    /// A text.
    Text(Seq<char>),
    /// Something that is no text.
    Other,
}

impl DeepView for PrevSender {
    type V = PrevSenderView;

    open spec fn deep_view(&self) -> PrevSenderView {
        match self {
            PrevSender::Absent => PrevSenderView::Absent,
            PrevSender::Text(id) => PrevSenderView::Text(id@),
            PrevSender::Other => PrevSenderView::Other,
        }
    }
}

/// A change of what a user is to a room.
#[derive(Debug, PartialEq, Eq)]
pub struct MemberEvent {
    /// The room.
    pub room_id: String,
    /// The user who sent the event.
    pub user_id: String,
    /// The user whom the event is about.
    pub state_key: String,
    /// What that user is to the room now.
    pub membership: MembershipState,
    /// The user who sent the event that this one replaces: for a join, who invited.
    pub prev_sender: PrevSender,
}

/// The mathematical value of a [`MemberEvent`].
pub struct MemberEventView {
    /// The room.
    pub room_id: Seq<char>,
    /// The user who sent the event.
    pub user_id: Seq<char>,
    /// The user whom the event is about.
    pub state_key: Seq<char>,
    /// What that user is to the room now.
    pub membership: MembershipState,
    /// The user who sent the event that this one replaces.
    pub prev_sender: PrevSenderView,
}

impl DeepView for MemberEvent {
    type V = MemberEventView;

    open spec fn deep_view(&self) -> MemberEventView {
        MemberEventView {
            room_id: self.room_id@,
            user_id: self.user_id@,
            state_key: self.state_key@,
            membership: self.membership,
            prev_sender: self.prev_sender.deep_view(),
        }
    }
}

/// An event of the homeserver.
#[derive(Debug, PartialEq, Eq)]
pub enum Event {
    /// What a user is to a room has changed.
    RoomMember(MemberEvent),
    /// A message was sent into a room.
    RoomMessage(MessageEvent),
    /// An event of another type.
    Other,
}

/// The mathematical value of an [`Event`].
pub enum EventView {
    /// What a user is to a room has changed.
    RoomMember(MemberEventView),
    /// A message was sent into a room.
    RoomMessage(MessageEventView),
    /// An event of another type.
    Other,
}

impl DeepView for Event {
    type V = EventView;

    open spec fn deep_view(&self) -> EventView {
        match self {
            Event::RoomMember(event) => EventView::RoomMember(event.deep_view()),
            Event::RoomMessage(event) => EventView::RoomMessage(event.deep_view()),
            Event::Other => EventView::Other,
        }
    }
}

/// The events of one transaction of the homeserver.
#[derive(Debug, PartialEq, Eq)]
pub struct Events {
    /// The events, in the order in which the homeserver sent them.
    pub events: Vec<Event>,
}

} // verus!
