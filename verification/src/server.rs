//! The doors of the application service: the transactions of the homeserver, the messages
//! of the Rocket.Chat servers, and the homeserver's questions about users and aliases.
//!
//! Each door is a function of what arrived, of the store and of the answers that the
//! calls of this run have had so far. It hands back the call that it needs next, or the
//! status of the response and the store that is to be kept.

use vstd::prelude::*;
use crate::api::exchange::{Halt, HaltView, Reply, ReplyView, Request, RequestView, Transcript};
use crate::api::rocketchat::{Message, MessageView};
use crate::config::{Config, ConfigView};
use crate::db::room::local_part_of;
use crate::db::room::local_part;
use crate::db::store::{Store, StoreView};
use crate::handlers::events::event_dispatcher;
use crate::handlers::events::event_dispatcher::EventDispatcher;
use crate::handlers::rocketchat::forwarder;
use crate::handlers::rocketchat::forwarder::{
    authenticated,
    Forwarder,
    STATUS_FORBIDDEN,
    STATUS_INTERNAL_SERVER_ERROR,
    STATUS_OK,
    STATUS_UNAUTHORIZED,
};
use crate::models::{Event, EventView};
use crate::text::{starts_with, text};

verus! {

/// The status of a question about a user or an alias that the bridge does not answer for.
pub const STATUS_NOT_FOUND: u16 = 404;

/// How far a run has come.
#[derive(Debug, PartialEq, Eq)]
pub enum Progress {
    /// The run needs the answer to this call.
    Ask(Request),
    /// The run has ended: the store that is to be kept, and the status of the response.
    Done(Store, u16),
}

/// The mathematical value of a [`Progress`].
pub enum ProgressView {
    /// The run needs the answer to this call.
    Ask(RequestView),
    /// The run has ended.
    Done(StoreView, u16),
}

impl DeepView for Progress {
    type V = ProgressView;

    open spec fn deep_view(&self) -> ProgressView {
        match self {
            Progress::Ask(request) => ProgressView::Ask(request.deep_view()),
            Progress::Done(store, status) => ProgressView::Done(store.deep_view(), *status),
        }
    }
}

/// The status of a transaction by its token alone: 401 without a token, 403 with one that
/// is not the homeserver's, else 200.
pub open spec fn transaction_status(config: ConfigView, access_token: Option<Seq<char>>) -> u16 {
    match access_token {
        None => STATUS_UNAUTHORIZED,
        Some(token) => if token == config.hs_token {
            STATUS_OK
        } else {
            STATUS_FORBIDDEN
        },
    }
}

/// What [`Server::transactions`] gives. A transaction with the homeserver's token is
/// handled and answered with 200, whether or not a handler failed.
pub open spec fn transactions(
    store: StoreView,
    config: ConfigView,
    access_token: Option<Seq<char>>,
    events: Seq<EventView>,
    now: i64,
    replies: Seq<ReplyView>,
) -> ProgressView {
    if transaction_status(config, access_token) != STATUS_OK {
        ProgressView::Done(store, transaction_status(config, access_token))
    } else {
        let run = event_dispatcher::process(store, replies, config, events, now);
        match run.result {
            Err(HaltView::Ask(request)) => ProgressView::Ask(request),
            _ => ProgressView::Done(run.store, STATUS_OK),
        }
    }
}

/// What [`Server::rocketchat`] gives. A message that is turned away, or whose forwarding
/// fails, leaves the store as it was.
pub open spec fn rocketchat(
    store: StoreView,
    config: ConfigView,
    payload: Option<MessageView>,
    now: i64,
    replies: Seq<ReplyView>,
) -> ProgressView {
    match authenticated(store, payload) {
        Err(status) => ProgressView::Done(store, status),
        Ok(server) => {
            let run = forwarder::send(store, replies, config, server, payload->0, now);
            match run.result {
                Err(HaltView::Ask(request)) => ProgressView::Ask(request),
                Err(HaltView::Fail(_)) => ProgressView::Done(store, STATUS_INTERNAL_SERVER_ERROR),
                Ok(_) => ProgressView::Done(run.store, STATUS_OK),
            }
        },
    }
}

/// Whether an identifier lies in the namespace of the application service: its local part
/// begins with the sender's local part and an underscore, and it lies on the homeserver's
/// domain.
pub open spec fn in_namespace(config: ConfigView, sigil: char, id: Seq<char>) -> bool {
    &&& (config.sender_localpart + seq!['_']).is_prefix_of(local_part(id))
    &&& id == seq![sigil] + local_part(id) + seq![':'] + config.hs_domain
}

/// The status of a question about an identifier: 200 for one in the namespace, else 404.
pub open spec fn namespace_status(config: ConfigView, sigil: char, id: Seq<char>) -> u16 {
    if in_namespace(config, sigil, id) {
        STATUS_OK
    } else {
        STATUS_NOT_FOUND
    }
}

/// The application service.
#[derive(Debug, PartialEq, Eq)]
pub struct Server<'a> {
    /// The configuration of the application service.
    pub config: &'a Config,
}

impl<'a> Server<'a> {
    /// The application service with the given configuration.
    pub fn new(config: &'a Config) -> (server: Server<'a>)
        ensures
            server.config == config,
    {
        Server { config }
    }

    /// The status of a transaction by its token alone.
    pub fn transaction_status(&self, access_token: &Option<String>) -> (status: u16)
        ensures
            status == transaction_status(self.config.deep_view(), access_token.deep_view()),
    {
        match access_token {
            None => STATUS_UNAUTHORIZED,
            Some(token) => if *token == self.config.hs_token {
                STATUS_OK
            } else {
                STATUS_FORBIDDEN
            },
        }
    }

    /// Takes a transaction of the homeserver that arrived at `now`, over the answers
    /// `replies` that the calls of this run have had so far.
    pub fn transactions(
        &self,
        store: &Store,
        access_token: &Option<String>,
        events: &Vec<Event>,
        now: i64,
        replies: &Vec<Reply>,
    ) -> (progress: Progress)
        requires
            store.wf(),
        ensures
            progress matches Progress::Done(kept, _) ==> kept.wf(),
            progress.deep_view() == transactions(
                store.deep_view(),
                self.config.deep_view(),
                access_token.deep_view(),
                events.deep_view(),
                now,
                replies.deep_view(),
            ),
    {
        let status = self.transaction_status(access_token);
        if status != STATUS_OK {
            return Progress::Done(store.clone(), status);
        }
        let mut scratch = store.clone();
        let mut calls = Transcript::new(replies);
        match EventDispatcher::new(self.config).process(&mut scratch, &mut calls, events, now) {
            Err(Halt::Ask(request)) => Progress::Ask(request),
            _ => Progress::Done(scratch, STATUS_OK),
        }
    }

    /// Takes a message of a Rocket.Chat server that arrived at `now`, over the answers
    /// `replies` that the calls of this run have had so far. `payload` is `None` where
    /// what arrived could not be read as a message.
    pub fn rocketchat(&self, store: &Store, payload: &Option<Message>, now: i64, replies: &Vec<Reply>) -> (progress:
        Progress)
        requires
            store.wf(),
        ensures
            progress matches Progress::Done(kept, _) ==> kept.wf(),
            progress.deep_view() == rocketchat(
                store.deep_view(),
                self.config.deep_view(),
                payload.deep_view(),
                now,
                replies.deep_view(),
            ),
    {
        let server = match Forwarder::authenticate(store, payload) {
            Ok(server) => server,
            Err(status) => return Progress::Done(store.clone(), status),
        };
        let message = match payload {
            Some(message) => message,
            None => return Progress::Done(store.clone(), STATUS_INTERNAL_SERVER_ERROR),
        };
        let mut scratch = store.clone();
        let mut calls = Transcript::new(replies);
        let forwarder = Forwarder { config: self.config };
        match forwarder.send(&mut scratch, &mut calls, &server, message, now) {
            Err(Halt::Ask(request)) => Progress::Ask(request),
            Err(Halt::Fail(_)) => Progress::Done(store.clone(), STATUS_INTERNAL_SERVER_ERROR),
            Ok(()) => Progress::Done(scratch, STATUS_OK),
        }
    }

    /// Whether an identifier lies in the namespace of the application service.
    fn is_in_namespace(&self, sigil: &str, id: &str) -> (yes: bool)
        requires
            sigil@.len() == 1,
        ensures
            yes == in_namespace(self.config.deep_view(), sigil@[0], id@),
    {
        proof {
            reveal_strlit("_");
            reveal_strlit(":");
        }
        let part = local_part_of(id);
        let mut prefix = self.config.sender_localpart.clone();
        prefix.append("_");
        let mut expected = text(sigil);
        expected.append(part.as_str());
        expected.append(":");
        expected.append(self.config.hs_domain.as_str());
        assert(expected@ =~= seq![sigil@[0]] + local_part(id@) + seq![':']
            + self.config.deep_view().hs_domain);
        starts_with(part.as_str(), prefix.as_str()) && expected == text(id)
    }

    /// Answers the homeserver's question about a user: 200 for a user of the namespace of
    /// the application service, else 404.
    pub fn users(&self, matrix_user_id: &str) -> (status: u16)
        ensures
            status == namespace_status(self.config.deep_view(), '@', matrix_user_id@),
    {
        proof {
            reveal_strlit("@");
        }
        if self.is_in_namespace("@", matrix_user_id) {
            STATUS_OK
        } else {
            STATUS_NOT_FOUND
        }
    }

    /// Answers the homeserver's question about an alias: 200 for an alias of the namespace
    /// of the application service, else 404.
    pub fn rooms(&self, alias: &str) -> (status: u16)
        ensures
            status == namespace_status(self.config.deep_view(), '#', alias@),
    {
        proof {
            reveal_strlit("#");
        }
        if self.is_in_namespace("#", alias) {
            STATUS_OK
        } else {
            STATUS_NOT_FOUND
        }
    }
}

} // verus!
