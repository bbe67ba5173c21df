//! Handing the events of a transaction to their handlers.

use vstd::prelude::*;
use crate::api::exchange::{reached, Halt, HaltView, ReplyView, Step, Transcript};
use crate::config::{Config, ConfigView};
use crate::db::store::{Store, StoreView};
use crate::errors::{Error, ErrorView};
use crate::handlers::error_notifier;
use crate::handlers::error_notifier::ErrorNotifier;
use crate::handlers::events::message_handler;
use crate::handlers::events::message_handler::MessageHandler;
use crate::handlers::events::room_handler;
use crate::handlers::events::room_handler::RoomHandler;
use crate::handlers::run::{ended, halted, ran, with_store, Run};
use crate::models::{Event, EventView};

verus! {

/// The room of an event; the empty text for an event that the bridge does not read.
pub open spec fn room_of(event: EventView) -> Seq<char> {
    match event {
        EventView::RoomMember(event) => event.room_id,
        EventView::RoomMessage(event) => event.room_id,
        EventView::Other => Seq::empty(),
    }
}

/// What the handler of an event gives, over the store `store` and the answers `pending`: a
/// change of membership goes to the handler of rooms, a message that was sent at `now` to
/// the handler of messages, and any other event is passed over.
pub open spec fn dispatch(
    store: StoreView,
    pending: Seq<ReplyView>,
    config: ConfigView,
    event: EventView,
    now: i64,
) -> Run<()> {
    match event {
        EventView::RoomMember(event) => with_store(
            room_handler::process(pending, store, config, event),
            store,
        ),
        EventView::RoomMessage(event) => message_handler::process(store, pending, config, event, now),
        EventView::Other => ended((), store, pending),
    }
}

/// What [`EventDispatcher::handle_error`] gives over the answers `pending`: the message of
/// the error is sent into the room; an error that has none is passed over.
pub open spec fn handle_error(
    pending: Seq<ReplyView>,
    config: ConfigView,
    error: ErrorView,
    room_id: Seq<char>,
) -> Step<()> {
    error_notifier::send_message_to_user(pending, config, error, room_id)
}

/// What becomes of the events from index `from` on. The events are handled in their order,
/// each as a transaction of its own. An event whose handler fails leaves the store as it
/// was before it, and its error is reported into its room. After a report that went
/// through, the events after it are handled as after any other event; only where the
/// report itself fails does the run end, with the failure of the report.
pub open spec fn process_from(
    store: StoreView,
    pending: Seq<ReplyView>,
    config: ConfigView,
    events: Seq<EventView>,
    now: i64,
    from: int,
) -> Run<()>
    decreases events.len() - from,
{
    if from < 0 || from >= events.len() {
        ended((), store, pending)
    } else {
        let handled = dispatch(store, pending, config, events[from], now);
        match handled.result {
            Ok(_) => process_from(handled.store, handled.pending, config, events, now, from + 1),
            Err(HaltView::Ask(request)) => halted(HaltView::Ask(request), store, handled.pending),
            Err(HaltView::Fail(error)) => {
                let told = handle_error(handled.pending, config, error, room_of(events[from]));
                match told.result {
                    Err(halt) => halted(halt, store, told.pending),
                    Ok(_) => process_from(store, told.pending, config, events, now, from + 1),
                }
            },
        }
    }
}

/// What [`EventDispatcher::process`] gives, over the store `store` and the answers
/// `pending`.
pub open spec fn process(
    store: StoreView,
    pending: Seq<ReplyView>,
    config: ConfigView,
    events: Seq<EventView>,
    now: i64,
) -> Run<()> {
    process_from(store, pending, config, events, now, 0)
}

/// The handler of an event that is not a message writes nothing, and a handler that
/// stops before its end leaves the store as it was.
pub proof fn lemma_failed_handler_writes_nothing(
    store: StoreView,
    pending: Seq<ReplyView>,
    config: ConfigView,
    event: EventView,
    now: i64,
)
    ensures
        dispatch(store, pending, config, event, now).result is Err ==> dispatch(
            store,
            pending,
            config,
            event,
            now,
        ).store == store,
{
    if let EventView::RoomMessage(message) = event {
        message_handler::lemma_failed_message_writes_nothing(store, pending, config, message, now);
    }
}

/// An event whose handler fails changes nothing in the store, and does not end the
/// transaction. Its error is reported; after a report that went through, the events after
/// it are handled, on the store as it was before the event and over the answers that the
/// report has left. Only the failure of the report is handed back.
pub proof fn lemma_failed_event_is_undone(
    store: StoreView,
    pending: Seq<ReplyView>,
    config: ConfigView,
    events: Seq<EventView>,
    now: i64,
)
    requires
        events.len() > 0,
        dispatch(store, pending, config, events[0], now).result matches Err(HaltView::Fail(_)),
    ensures
        ({
            let told = handle_error(
                dispatch(store, pending, config, events[0], now).pending,
                config,
                dispatch(store, pending, config, events[0], now).result->Err_0->Fail_0,
                room_of(events[0]),
            );
            match told.result {
                Ok(_) => process(store, pending, config, events, now) == process_from(
                    store,
                    told.pending,
                    config,
                    events,
                    now,
                    1,
                ),
                Err(halt) => process(store, pending, config, events, now) == halted::<()>(
                    halt,
                    store,
                    told.pending,
                ),
            }
        }),
{
}

/// The error of a handler is never the result of a transaction: where a transaction of
/// one event fails, it is the report of an error that has failed.
pub proof fn lemma_only_reports_fail(
    store: StoreView,
    pending: Seq<ReplyView>,
    config: ConfigView,
    event: EventView,
    now: i64,
)
    requires
        process(store, pending, config, seq![event], now).result matches Err(HaltView::Fail(_)),
    ensures
        dispatch(store, pending, config, event, now).result matches Err(HaltView::Fail(error))
            && process(store, pending, config, seq![event], now).result == handle_error(
            dispatch(store, pending, config, event, now).pending,
            config,
            error,
            room_of(event),
        ).result,
{
    let events = seq![event];
    let handled = dispatch(store, pending, config, events[0], now);
    if handled.result is Ok {
        assert(process_from(handled.store, handled.pending, config, events, now, 1).result is Ok);
    } else if let Err(HaltView::Fail(error)) = handled.result {
        let told = handle_error(handled.pending, config, error, room_of(events[0]));
        if told.result is Ok {
            assert(process_from(store, told.pending, config, events, now, 1).result is Ok);
        }
    }
}

/// Hands events to their handlers.
#[derive(Debug, PartialEq, Eq)]
pub struct EventDispatcher<'a> {
    /// The configuration of the application service.
    pub config: &'a Config,
}

impl<'a> EventDispatcher<'a> {
    /// A dispatcher of events.
    pub fn new(config: &'a Config) -> (dispatcher: EventDispatcher<'a>)
        ensures
            dispatcher.config == config,
    {
        EventDispatcher { config }
    }

    /// Handles the events of a transaction that arrived at `now`, in their order. The
    /// error of a handler is reported into the room of the event; the store is then as it
    /// was before that event, and the events after it are handled all the same. Only where
    /// an error cannot be reported does the transaction end before its last event; what the
    /// events before have written is kept then, too.
    pub fn process(&self, store: &mut Store, calls: &mut Transcript, events: &Vec<Event>, now: i64) -> (result:
        Result<(), Halt>)
        requires
            old(store).wf(),
        ensures
            final(store).wf(),
            ran(result, final(store).deep_view(), final(calls).pending()) == process(
                old(store).deep_view(),
                old(calls).pending(),
                self.config.deep_view(),
                events.deep_view(),
                now,
            ),
    {
        let ghost whole = process(
            store.deep_view(),
            calls.pending(),
            self.config.deep_view(),
            events.deep_view(),
            now,
        );
        let mut i: usize = 0;
        while i < events.len()
            invariant
                i <= events.len(),
                store.wf(),
                whole == process(
                    old(store).deep_view(),
                    old(calls).pending(),
                    self.config.deep_view(),
                    events.deep_view(),
                    now,
                ),
                whole == process_from(
                    store.deep_view(),
                    calls.pending(),
                    self.config.deep_view(),
                    events.deep_view(),
                    now,
                    i as int,
                ),
            decreases events.len() - i,
        {
            let handled = match &events[i] {
                Event::RoomMember(member_event) => RoomHandler::new(self.config).process(
                    store,
                    calls,
                    member_event,
                ),
                Event::RoomMessage(message_event) => MessageHandler::new(self.config).process(
                    store,
                    calls,
                    message_event,
                    now,
                ),
                Event::Other => Ok(()),
            };
            match handled {
                Ok(()) => {},
                Err(Halt::Ask(request)) => {
                    return Err(Halt::Ask(request));
                },
                Err(Halt::Fail(error)) => {
                    let room_id = match &events[i] {
                        Event::RoomMember(member_event) => member_event.room_id.clone(),
                        Event::RoomMessage(message_event) => message_event.room_id.clone(),
                        Event::Other => String::new(),
                    };
                    match self.handle_error(calls, error, room_id.as_str()) {
                        Ok(()) => {},
                        Err(halt) => return Err(halt),
                    }
                },
            }
            i = i + 1;
        }
        Ok(())
    }

    /// Reports an error into the room in which it arose. An error that has no message for
    /// the user is passed over; where the message cannot be sent, the error of the sending
    /// is handed back.
    pub fn handle_error(&self, calls: &mut Transcript, err: Error, room_id: &str) -> (result: Result<
        (),
        Halt,
    >)
        ensures
            reached(result, final(calls).pending()) == handle_error(
                old(calls).pending(),
                self.config.deep_view(),
                err.deep_view(),
                room_id@,
            ),
    {
        let error_notifier = ErrorNotifier { config: self.config };
        error_notifier.send_message_to_user(calls, &err, room_id)
    }
}

} // verus!
