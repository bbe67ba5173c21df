//! Reading the messages that Rocket.Chat servers send, out of the JSON that carries them.
//!
//! What the crate `serde_json` makes of a text is asked here, through a function whose
//! contract is taken on trust; how a member is found by its name, and which members a
//! message needs, is decided here.

use vstd::prelude::*;
use crate::api::rocketchat::{Message, MessageView};
use crate::seqs::{find_first, lemma_first_match};
use crate::text::text;

verus! {

/// A member of a JSON object, as far as the bridge reads it.
#[derive(Debug, PartialEq, Eq)]
pub enum Member {
    /// There is no member of the name.
    Absent,
    /// The member is `null`.
    Null,
    /// The member is a string.
    Text(String),
    /// The member is something else: a number, a boolean, an array or an object.
    Other,
}

/// The mathematical value of a [`Member`].
pub enum MemberView {
    /// There is no member of the name.
    Absent,
    /// The member is `null`.
    Null,
    /// The member is a string.
    Text(Seq<char>),
    /// The member is something else.
    Other,
}

impl DeepView for Member {
    type V = MemberView;

    open spec fn deep_view(&self) -> MemberView {
        match self {
            Member::Absent => MemberView::Absent,
            Member::Null => MemberView::Null,
            Member::Text(text) => MemberView::Text(text@),
            Member::Other => MemberView::Other,
        }
    }
}

/// The members of the JSON object that `serde_json` reads from `body`, each with its name;
/// `None` where it reads no JSON from `body`, or JSON that is no object.
pub uninterp spec fn json_object(body: Seq<char>) -> Option<Seq<(Seq<char>, MemberView)>>;

/// Asks `serde_json::from_str` for the JSON value of `body` and hands out, where that is an
/// object, its members one for one: the name of each, and the text of one that is a
/// string. The contract gives the outcome its name and claims nothing else of it: that it
/// depends on the text alone.
#[verifier::external_body]
fn members_of(body: &str) -> (found: Option<Vec<(String, Member)>>)
    ensures
        found.deep_view() == json_object(body@),
{
    match serde_json::from_str::<serde_json::Value>(body) {
        Ok(serde_json::Value::Object(members)) => Some(
            members.into_iter().map(
                |(name, value)| match value {
                    serde_json::Value::Null => (name, Member::Null),
                    serde_json::Value::String(text) => (name, Member::Text(text)),
                    _ => (name, Member::Other),
                },
            ).collect(),
        ),
        _ => None,
    }
}

/// The member of the given name among `members`: the first of that name, or the word that
/// there is none.
pub open spec fn member_named(members: Seq<(Seq<char>, MemberView)>, name: Seq<char>) -> MemberView {
    match find_first(members, |member: (Seq<char>, MemberView)| member.0 == name) {
        Some(member) => member.1,
        None => MemberView::Absent,
    }
}

/// A member that a message must have: it is there, and is a string.
pub open spec fn required(member: MemberView) -> Option<Seq<char>> {
    match member {
        MemberView::Text(text) => Some(text),
        _ => None,
    }
}

/// A member that a message may have: it is a string, or it is `null` or not there, which
/// both stand for none. Anything else is a mistake.
pub open spec fn optional(member: MemberView) -> Option<Option<Seq<char>>> {
    match member {
        MemberView::Text(text) => Some(Some(text)),
        MemberView::Null => Some(None),
        MemberView::Absent => Some(None),
        MemberView::Other => None,
    }
}

/// The message that the given members make, if they make one: `message_id`, `channel_id`,
/// `user_id`, `user_name` and `text` are strings; `token` and `channel_name` are strings
/// where they are there and not `null`. Other members are not read.
pub open spec fn message_from(members: Seq<(Seq<char>, MemberView)>) -> Option<MessageView> {
    let message_id = required(member_named(members, "message_id"@));
    let token = optional(member_named(members, "token"@));
    let channel_id = required(member_named(members, "channel_id"@));
    let channel_name = optional(member_named(members, "channel_name"@));
    let user_id = required(member_named(members, "user_id"@));
    let user_name = required(member_named(members, "user_name"@));
    let text = required(member_named(members, "text"@));
    if message_id is Some && token is Some && channel_id is Some && channel_name is Some
        && user_id is Some && user_name is Some && text is Some {
        Some(
            MessageView {
                message_id: message_id->0,
                token: token->0,
                channel_id: channel_id->0,
                channel_name: channel_name->0,
                user_id: user_id->0,
                user_name: user_name->0,
                text: text->0,
            },
        )
    } else {
        None
    }
}

/// The message that the payload `body` holds, if it holds one: the payload is a JSON
/// object whose members make a message.
pub open spec fn message_of(body: Seq<char>) -> Option<MessageView> {
    match json_object(body) {
        None => None,
        Some(members) => message_from(members),
    }
}

/// A copy of `member`.
pub fn copy_of(member: &Member) -> (copy: Member)
    ensures
        copy.deep_view() == member.deep_view(),
{
    match member {
        Member::Absent => Member::Absent,
        Member::Null => Member::Null,
        Member::Text(text) => Member::Text(text.clone()),
        Member::Other => Member::Other,
    }
}

/// The member of the given name among `members`.
pub fn member(members: &Vec<(String, Member)>, name: &str) -> (found: Member)
    ensures
        found.deep_view() == member_named(members.deep_view(), name@),
{
    let wanted = text(name);
    let ghost pred = |member: (Seq<char>, MemberView)| member.0 == name@;
    let mut i: usize = 0;
    while i < members.len()
        invariant
            i <= members.len(),
            wanted@ == name@,
            pred == |member: (Seq<char>, MemberView)| member.0 == name@,
            forall|j: int| 0 <= j < i ==> !pred(#[trigger] members.deep_view()[j]),
        decreases members.len() - i,
    {
        if members[i].0 == wanted {
            proof {
                lemma_first_match(members.deep_view(), pred, i as int);
            }
            return copy_of(&members[i].1);
        }
        i = i + 1;
    }
    proof {
        lemma_first_match(members.deep_view(), pred, members.len() as int);
    }
    Member::Absent
}

/// What a member gives that a message must have, for each thing that the member can be.
pub fn required_text(member: Member) -> (text: Option<String>)
    ensures
        text.deep_view() == required(member.deep_view()),
{
    match member {
        Member::Text(text) => Some(text),
        _ => None,
    }
}

/// What a member gives that a message may have, for each thing that the member can be.
pub fn optional_text(member: Member) -> (text: Option<Option<String>>)
    ensures
        text.deep_view() == optional(member.deep_view()),
{
    match member {
        Member::Text(text) => Some(Some(text)),
        Member::Null => Some(None),
        Member::Absent => Some(None),
        Member::Other => None,
    }
}

/// The message that the given members make, if they make one.
pub fn assemble(members: &Vec<(String, Member)>) -> (message: Option<Message>)
    ensures
        message.deep_view() == message_from(members.deep_view()),
{
    let message_id = match required_text(member(members, "message_id")) {
        Some(message_id) => message_id,
        None => return None,
    };
    let token = match optional_text(member(members, "token")) {
        Some(token) => token,
        None => return None,
    };
    let channel_id = match required_text(member(members, "channel_id")) {
        Some(channel_id) => channel_id,
        None => return None,
    };
    let channel_name = match optional_text(member(members, "channel_name")) {
        Some(channel_name) => channel_name,
        None => return None,
    };
    let user_id = match required_text(member(members, "user_id")) {
        Some(user_id) => user_id,
        None => return None,
    };
    let user_name = match required_text(member(members, "user_name")) {
        Some(user_name) => user_name,
        None => return None,
    };
    let text = match required_text(member(members, "text")) {
        Some(text) => text,
        None => return None,
    };
    Some(Message { message_id, token, channel_id, channel_name, user_id, user_name, text })
}

/// Reads the message that a payload holds. A payload that holds none gives `None`, and is
/// answered as one that cannot be processed.
pub fn read(body: &str) -> (message: Option<Message>)
    ensures
        message.deep_view() == message_of(body@),
{
    match members_of(body) {
        Some(members) => assemble(&members),
        None => None,
    }
}

} // verus!
