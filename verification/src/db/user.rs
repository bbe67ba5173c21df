//! Matrix users: the language they are written to in, and when they last sent a message.

use vstd::prelude::*;
use crate::api::exchange::{reached, Halt, Transcript};
use crate::db::room;
use crate::db::room::{contains_name, Room};
use crate::db::store::Store;
use crate::seqs::{find_first, first_match, lemma_first_match, lemma_first_match_is_first};
use crate::text::text;

verus! {

/// A Matrix user.
#[derive(Debug, PartialEq, Eq)]
pub struct User {
    /// The user's id on the homeserver.
    pub matrix_user_id: String,
    /// The language in which the user is written to.
    pub language: String,
    /// When the user last sent a message, in seconds since the epoch.
    pub last_message_sent: i64,
}

/// The mathematical value of a [`User`].
pub struct UserView {
    /// The user's id on the homeserver.
    pub matrix_user_id: Seq<char>,
    /// The language in which the user is written to.
    pub language: Seq<char>,
    /// When the user last sent a message, in seconds since the epoch.
    pub last_message_sent: i64,
}

impl DeepView for User {
    type V = UserView;

    open spec fn deep_view(&self) -> UserView {
        UserView {
            matrix_user_id: self.matrix_user_id@,
            language: self.language@,
            last_message_sent: self.last_message_sent,
        }
    }
}

impl Clone for User {
    fn clone(&self) -> (copy: Self)
        ensures
            copy.deep_view() == self.deep_view(),
    {
        User {
            matrix_user_id: self.matrix_user_id.clone(),
            language: self.language.clone(),
            last_message_sent: self.last_message_sent,
        }
    }
}

/// The language of a user of whom no other is known.
pub open spec fn default_language() -> Seq<char> {
    seq!['e', 'n']
}

/// No two users have the same id.
pub open spec fn users_well_formed(users: Seq<UserView>) -> bool {
    forall|i: int, j: int|
        0 <= i < j < users.len() ==> (#[trigger] users[i]).matrix_user_id != (
        #[trigger] users[j]).matrix_user_id
}

/// The user of the given id, if the table holds one.
pub open spec fn user_by_id(users: Seq<UserView>, matrix_user_id: Seq<char>) -> Option<UserView> {
    find_first(users, |u: UserView| u.matrix_user_id == matrix_user_id)
}

/// The later of two moments.
pub open spec fn later(a: i64, b: i64) -> i64 {
    if a >= b {
        a
    } else {
        b
    }
}

/// The table after the user of the given id has sent a message at `now`: the user's row
/// holds the later of `now` and what it held; a user who had no row has one, in the default
/// language, that holds the later of `now` and 0.
pub open spec fn message_sent(users: Seq<UserView>, matrix_user_id: Seq<char>, now: i64) -> Seq<
    UserView,
> {
    let at = first_match(users, |u: UserView| u.matrix_user_id == matrix_user_id);
    if at < users.len() {
        users.update(
            at,
            UserView { last_message_sent: later(users[at].last_message_sent, now), ..users[at] },
        )
    } else {
        users.push(
            UserView { matrix_user_id, language: default_language(), last_message_sent: later(0, now) },
        )
    }
}

/// A table that is well formed is still so after a message was sent.
pub proof fn lemma_message_sent_well_formed(
    users: Seq<UserView>,
    matrix_user_id: Seq<char>,
    now: i64,
)
    requires
        users_well_formed(users),
    ensures
        users_well_formed(message_sent(users, matrix_user_id, now)),
{
    let pred = |u: UserView| u.matrix_user_id == matrix_user_id;
    lemma_first_match_is_first(users, pred, 0);
    let at = first_match(users, pred);
    let after = message_sent(users, matrix_user_id, now);
    assert forall|i: int, j: int| 0 <= i < j < after.len() implies (#[trigger] after[i]).matrix_user_id
        != (#[trigger] after[j]).matrix_user_id by {
        if i < users.len() && j < users.len() {
            assert(after[j].matrix_user_id == users[j].matrix_user_id);
        } else {
            assert(!pred(users[i]));
        }
    }
}

/// After a user has sent a message at `now`, the table holds the user, and a moment that
/// is not before `now`.
pub proof fn lemma_message_sent_is_recorded(users: Seq<UserView>, matrix_user_id: Seq<char>, now: i64)
    ensures
        user_by_id(message_sent(users, matrix_user_id, now), matrix_user_id) is Some,
        user_by_id(message_sent(users, matrix_user_id, now), matrix_user_id)->0.last_message_sent
            >= now,
{
    let pred = |u: UserView| u.matrix_user_id == matrix_user_id;
    lemma_first_match_is_first(users, pred, 0);
    let at = first_match(users, pred);
    let after = message_sent(users, matrix_user_id, now);
    assert forall|j: int| 0 <= j < at implies !pred(#[trigger] after[j]) by {
        assert(after[j] == users[j]);
    }
    lemma_first_match(after, pred, at);
}

/// The moment of a user's last message never goes back: whoever sends a message, each user
/// that the table held is still held, with a moment that is not before the one that was.
pub proof fn lemma_last_message_sent_never_goes_back(
    users: Seq<UserView>,
    sender_id: Seq<char>,
    now: i64,
    matrix_user_id: Seq<char>,
)
    requires
        user_by_id(users, matrix_user_id) is Some,
    ensures
        user_by_id(message_sent(users, sender_id, now), matrix_user_id) is Some,
        user_by_id(message_sent(users, sender_id, now), matrix_user_id)->0.last_message_sent
            >= user_by_id(users, matrix_user_id)->0.last_message_sent,
{
    let sender = |u: UserView| u.matrix_user_id == sender_id;
    let wanted = |u: UserView| u.matrix_user_id == matrix_user_id;
    lemma_first_match_is_first(users, sender, 0);
    lemma_first_match_is_first(users, wanted, 0);
    let at = first_match(users, wanted);
    let after = message_sent(users, sender_id, now);
    assert forall|j: int| 0 <= j < at implies !wanted(#[trigger] after[j]) by {
        assert(after[j].matrix_user_id == users[j].matrix_user_id);
    }
    lemma_first_match(after, wanted, at);
}

/// The index of the user of the given id; the number of users where there is none.
fn position(users: &Vec<User>, matrix_user_id: &String) -> (at: usize)
    ensures
        at == first_match(users.deep_view(), |u: UserView| u.matrix_user_id == matrix_user_id@),
        at <= users.len(),
{
    let mut i: usize = 0;
    while i < users.len()
        invariant
            i <= users.len(),
            forall|j: int| 0 <= j < i ==> (#[trigger] users.deep_view()[j]).matrix_user_id != matrix_user_id@,
        decreases users.len() - i,
    {
        if users[i].matrix_user_id == *matrix_user_id {
            proof {
                lemma_first_match(
                    users.deep_view(),
                    |u: UserView| u.matrix_user_id == matrix_user_id@,
                    i as int,
                );
            }
            return i;
        }
        i = i + 1;
    }
    proof {
        lemma_first_match(
            users.deep_view(),
            |u: UserView| u.matrix_user_id == matrix_user_id@,
            i as int,
        );
    }
    i
}

impl User {
    /// Whether the homeserver knows the user of the given id. The bridge does not ask: it
    /// takes every user for unknown.
    pub fn exists_on_homeserver(calls: &mut Transcript, matrix_user_id: &str) -> (result: Result<bool, Halt>)
        ensures
            result matches Ok(known) && !known,
            final(calls).pending() == old(calls).pending(),
    {
        Ok(false)
    }

    /// Whether the user is among the members of the room.
    pub fn is_in_room(calls: &mut Transcript, user_id: &str, matrix_room_id: &str) -> (result: Result<
        bool,
        Halt,
    >)
        ensures
            reached(result, final(calls).pending()) == room::is_in_room(
                old(calls).pending(),
                user_id@,
                matrix_room_id@,
            ),
    {
        match Room::user_ids(calls, matrix_room_id) {
            Ok(members) => Ok(contains_name(&members, user_id)),
            Err(halt) => Err(halt),
        }
    }

    /// The user of the given id, if the store holds one.
    pub fn find(store: &Store, matrix_user_id: &str) -> (found: Option<User>)
        ensures
            found.deep_view() == user_by_id(store.deep_view().users, matrix_user_id@),
    {
        let id = text(matrix_user_id);
        let at = position(&store.users, &id);
        if at < store.users.len() {
            Some(store.users[at].clone())
        } else {
            None
        }
    }

    /// Records that the user of the given id sent a message at `now`.
    pub fn record_message_sent(store: &mut Store, matrix_user_id: &str, now: i64)
        requires
            old(store).wf(),
        ensures
            final(store).wf(),
            final(store).deep_view() == (crate::db::store::StoreView {
                users: message_sent(old(store).deep_view().users, matrix_user_id@, now),
                ..old(store).deep_view()
            }),
    {
        let id = text(matrix_user_id);
        let at = position(&store.users, &id);
        let ghost before = store.users.deep_view();
        proof {
            lemma_message_sent_well_formed(before, matrix_user_id@, now);
        }
        if at < store.users.len() {
            let known = &store.users[at];
            let last = if known.last_message_sent >= now {
                known.last_message_sent
            } else {
                now
            };
            let row = User {
                matrix_user_id: known.matrix_user_id.clone(),
                language: known.language.clone(),
                last_message_sent: last,
            };
            store.users.set(at, row);
            assert(store.users.deep_view() =~= message_sent(before, matrix_user_id@, now));
        } else {
            proof {
                reveal_strlit("en");
            }
            let language = text("en");
            assert(language@ =~= default_language());
            let last = if 0 >= now {
                0
            } else {
                now
            };
            store.users.push(User { matrix_user_id: id, language, last_message_sent: last });
            assert(store.users.deep_view() =~= message_sent(before, matrix_user_id@, now));
        }
    }
}

} // verus!
