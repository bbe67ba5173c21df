//! Where a run of a handler stands: what it has to show, what it has made of the store,
//! and the answers that it has left unread.

use vstd::prelude::*;
use crate::api::exchange::{outcome, Halt, HaltView, ReplyView, Step};
use crate::db::store::StoreView;
use crate::errors::ErrorView;

verus! {

/// Where a run stands.
pub struct Run<T> {
    /// The result of the run, or why it stopped.
    pub result: Result<T, HaltView>,
    /// The store as the run has left it.
    pub store: StoreView,
    /// The answers that the run has not read.
    pub pending: Seq<ReplyView>,
}

/// Where a run stands that handed back `result`, left the store as `store` and the
/// answers `pending` unread.
pub open spec fn ran<T: DeepView>(
    result: Result<T, Halt>,
    store: StoreView,
    pending: Seq<ReplyView>,
) -> Run<T::V> {
    Run { result: outcome(result), store, pending }
}

/// The run that made the step `step` and left the store as `store`.
pub open spec fn with_store<T>(step: Step<T>, store: StoreView) -> Run<T> {
    Run { result: step.result, store, pending: step.pending }
}

/// The run that ends with `value`.
pub open spec fn ended<T>(value: T, store: StoreView, pending: Seq<ReplyView>) -> Run<T> {
    Run { result: Ok(value), store, pending }
}

/// The run that stops as `halt` says.
pub open spec fn halted<T>(halt: HaltView, store: StoreView, pending: Seq<ReplyView>) -> Run<T> {
    Run { result: Err(halt), store, pending }
}

/// The run `run` as a transaction on the store `store`: a run that ends keeps what it has
/// written; a run that stops, for want of an answer or with an error, leaves the store as
/// it was.
pub open spec fn undone<T>(store: StoreView, run: Run<T>) -> Run<T> {
    match run.result {
        Ok(_) => run,
        Err(_) => Run { store, ..run },
    }
}

/// The run that fails with `error`.
pub open spec fn failed<T>(error: ErrorView, store: StoreView, pending: Seq<ReplyView>) -> Run<T> {
    Run { result: Err(HaltView::Fail(error)), store, pending }
}

} // verus!
