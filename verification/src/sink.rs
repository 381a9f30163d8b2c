//! The capabilities that a processor is given: where records go, and where
//! diagnostics go.

use vstd::prelude::*;
use crate::error::{SinkError, SinkErrorView};
use crate::outcome::{stored_view, ItemOutcome};
use crate::parser::TelemetryRecord;

verus! {

/// Durable storage for decoded records.
///
/// Nothing is assumed of an implementation: it may succeed or fail on any
/// record, and may retry or block inside `store` as it sees fit.
pub trait Sink {
    /// Persists one record, or says why it was not persisted.
    fn store(&mut self, record: TelemetryRecord) -> Result<(), SinkError>;
}

/// One call of [`Sink::store`]: the members of the record that was handed
/// over, and what the sink answered.
pub struct StoreCall {
    pub record: serde_json::Map<String, serde_json::Value>,
    pub answer: Result<(), SinkErrorView>,
}

/// A sink together with the history of the calls made on it.
///
/// The history is ghost state. The sink can be called through
/// [`Recorded::store`] only, and each such call is a call of the sink with
/// the record it was given, passes the sink's answer on, and appends itself
/// to the history. So the history of a recorded sink is the sequence of calls
/// made on the sink since it was wrapped.
pub struct Recorded<S: Sink> {
    sink: S,
    log: Ghost<Seq<StoreCall>>,
}

impl<S: Sink> Recorded<S> {
    /// The calls of `store` made so far, oldest first.
    pub closed spec fn handed(&self) -> Seq<StoreCall> {
        self.log@
    }

    /// The sink that is recorded.
    pub closed spec fn inner(&self) -> S {
        self.sink
    }

    /// Wraps a sink, with an empty history.
    pub fn new(sink: S) -> (recorded: Self)
        ensures
            recorded.handed() == Seq::<StoreCall>::empty(),
            recorded.inner() == sink,
    {
        Recorded { sink, log: Ghost(Seq::empty()) }
    }

    /// Hands one record to the sink and passes its answer on; the call is
    /// appended to the history.
    pub fn store(&mut self, record: TelemetryRecord) -> (stored: Result<(), SinkError>)
        ensures
            exists|target: &mut S|
                mut_ref_current(target) == old(self).inner()
                    && mut_ref_future(target) == final(self).inner()
                    && #[trigger] call_ensures(S::store, (target, record), stored),
            final(self).handed() == old(self).handed().push(
                (StoreCall { record: record@, answer: stored_view(stored) }),
            ),
    {
        let ghost members = record@;
        let stored = self.sink.store(record);
        proof {
            self.log@ = self.log@.push(StoreCall { record: members, answer: stored_view(stored) });
        }
        stored
    }

    /// The sink that is recorded.
    pub fn get(&self) -> (sink: &S)
        ensures
            *sink == self.inner(),
    {
        &self.sink
    }

    /// Gives up the history for the sink.
    pub fn into_inner(self) -> (sink: S)
        ensures
            sink == self.inner(),
    {
        self.sink
    }
}

/// Receiver of the per-message diagnostics of a processor.
///
/// Diagnostics are for operators; they cannot fail and have no influence on
/// the outcomes.
pub trait Diagnostics {
    /// Is told how processing of one message ended.
    fn emit(&mut self, outcome: &ItemOutcome);
}

/// A receiver that drops every diagnostic.
pub struct Silent;

impl Diagnostics for Silent {
    fn emit(&mut self, outcome: &ItemOutcome) {
    }
}

} // verus!
