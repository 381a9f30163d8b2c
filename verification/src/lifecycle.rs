//! The states a message passes through while it is processed.
//!
//! ```text
//! Received -> Parsing -> ParseFailed
//!                     -> Parsed -> Storing -> Stored
//!                                          -> StoreFailed
//! ```

use vstd::prelude::*;
use crate::error::SinkErrorView;
use crate::message::RawMessageView;
use crate::outcome::{ItemOutcomeView, StatusView};
use crate::parser::parse_result;
use crate::processor::message_step;
use crate::sink::StoreCall;

verus! {

/// Where a message stands in its processing.
#[derive(Clone, Copy, Debug, PartialEq, Eq, Structural)]
pub enum MessageState {
    /// Taken from the batch; nothing done yet.
    Received,
    /// Its body is being decoded.
    Parsing,
    /// Its body could not be decoded. Terminal.
    ParseFailed,
    /// Its body was decoded into a record.
    Parsed,
    /// Its record is with the sink.
    Storing,
    /// The sink stored its record. Terminal.
    Stored,
    /// The sink did not store its record. Terminal.
    StoreFailed,
}

/// What moves a message from one state to the next.
#[derive(Clone, Copy, Debug, PartialEq, Eq, Structural)]
pub enum Step {
    /// Decoding of the body starts.
    BeginParse,
    /// The body was decoded.
    ParseSucceeded,
    /// The body was rejected.
    ParseFailed,
    /// The record is handed to the sink.
    BeginStore,
    /// The sink stored the record.
    StoreSucceeded,
    /// The sink answered with an error, or not in time.
    StoreFailed,
}

impl MessageState {
    /// The state that `step` leads to from this state, if the step is allowed
    /// here.
    pub open spec fn next(self, step: Step) -> Option<MessageState> {
        match (self, step) {
            (MessageState::Received, Step::BeginParse) => Some(MessageState::Parsing),
            (MessageState::Parsing, Step::ParseSucceeded) => Some(MessageState::Parsed),
            (MessageState::Parsing, Step::ParseFailed) => Some(MessageState::ParseFailed),
            (MessageState::Parsed, Step::BeginStore) => Some(MessageState::Storing),
            (MessageState::Storing, Step::StoreSucceeded) => Some(MessageState::Stored),
            (MessageState::Storing, Step::StoreFailed) => Some(MessageState::StoreFailed),
            _ => None,
        }
    }

    /// Whether processing of the message has ended.
    pub open spec fn is_terminal(self) -> bool {
        self == MessageState::ParseFailed || self == MessageState::Stored || self
            == MessageState::StoreFailed
    }

    /// How far along a state is: every step leads to a state further along.
    pub open spec fn progress(self) -> nat {
        match self {
            MessageState::Received => 0,
            MessageState::Parsing => 1,
            MessageState::ParseFailed => 2,
            MessageState::Parsed => 2,
            MessageState::Storing => 3,
            MessageState::Stored => 4,
            MessageState::StoreFailed => 4,
        }
    }
}

/// Whether one step leads from `from` to `to`.
pub open spec fn follows(from: MessageState, to: MessageState) -> bool {
    exists|step: Step| #[trigger] from.next(step) == Some(to)
}

/// Whether `states` is a run of the state machine: each state follows from
/// the one before it by one step.
pub open spec fn is_run(states: Seq<MessageState>) -> bool {
    forall|i: int|
        #![trigger states[i]]
        0 <= i < states.len() - 1 ==> follows(states[i], states[i + 1])
}

/// The states that a message passes through, given what the sink answers if
/// it is asked.
pub open spec fn lifecycle_of(message: RawMessageView, answer: Result<(), SinkErrorView>) -> Seq<
    MessageState,
> {
    let parsing = seq![MessageState::Received, MessageState::Parsing];
    match parse_result(message.body) {
        Err(_) => parsing.push(MessageState::ParseFailed),
        Ok(_) => {
            let storing = parsing.push(MessageState::Parsed).push(MessageState::Storing);
            match answer {
                Ok(_) => storing.push(MessageState::Stored),
                Err(_) => storing.push(MessageState::StoreFailed),
            }
        },
    }
}

/// The status that a terminal state stands for.
pub open spec fn state_matches(state: MessageState, status: StatusView) -> bool {
    match state {
        MessageState::ParseFailed => status is ParseFailure,
        MessageState::Stored => status is Success,
        MessageState::StoreFailed => status is SinkFailure,
        _ => false,
    }
}

/// No message revisits an earlier state: every allowed step leads strictly
/// further along, so no run holds a state twice.
pub proof fn steps_only_go_forward(state: MessageState, step: Step)
    ensures
        state.next(step) matches Some(next) ==> state.progress() < next.progress(),
{
}

/// A run never holds the same state at two places.
pub proof fn runs_never_revisit(states: Seq<MessageState>, i: int, j: int)
    requires
        is_run(states),
        0 <= i < j < states.len(),
    ensures
        states[i].progress() < states[j].progress(),
        states[i] != states[j],
    decreases j - i,
{
    let before = states[j - 1];
    assert(follows(before, states[j]));
    let step = choose|step: Step| #[trigger] before.next(step) == Some(states[j]);
    steps_only_go_forward(before, step);
    if i < j - 1 {
        runs_never_revisit(states, i, j - 1);
    }
}

/// The terminal states are exactly those that no step leaves.
pub proof fn terminal_states_are_final(state: MessageState)
    ensures
        state.is_terminal() <==> forall|step: Step| state.next(step) is None,
{
    if !state.is_terminal() {
        let step = match state {
            MessageState::Received => Step::BeginParse,
            MessageState::Parsing => Step::ParseSucceeded,
            MessageState::Parsed => Step::BeginStore,
            _ => Step::StoreSucceeded,
        };
        assert(state.next(step) is Some);
    }
}

/// The states a message passes through form a run from `Received` to a
/// terminal state, and the sink is reached on that run exactly when the body
/// decodes.
pub proof fn lifecycle_is_a_run(message: RawMessageView, answer: Result<(), SinkErrorView>)
    ensures
        is_run(lifecycle_of(message, answer)),
        lifecycle_of(message, answer).first() == MessageState::Received,
        lifecycle_of(message, answer).last().is_terminal(),
        lifecycle_of(message, answer).contains(MessageState::Storing) <==> parse_result(
            message.body,
        ) is Ok,
{
    let states = lifecycle_of(message, answer);
    assert(states[0].next(Step::BeginParse) == Some(states[1]));
    if parse_result(message.body) is Err {
        assert(states[1].next(Step::ParseFailed) == Some(states[2]));
        assert(!states.contains(MessageState::Storing));
    } else {
        assert(states[1].next(Step::ParseSucceeded) == Some(states[2]));
        assert(states[2].next(Step::BeginStore) == Some(states[3]));
        if answer is Ok {
            assert(states[3].next(Step::StoreSucceeded) == Some(states[4]));
        } else {
            assert(states[3].next(Step::StoreFailed) == Some(states[4]));
        }
        assert(states[3] == MessageState::Storing);
    }
}

/// What the processor does for one message is a run of the state machine:
/// whenever a message is processed as [`message_step`] says, its outcome
/// reports the terminal state of its lifecycle, and the sink was called, once
/// and with the members decoded from the body, exactly when the lifecycle
/// passes through `Storing`.
pub proof fn processing_follows_the_lifecycle(
    message: RawMessageView,
    answer: Result<(), SinkErrorView>,
    before: Seq<StoreCall>,
    after: Seq<StoreCall>,
    outcome: ItemOutcomeView,
)
    requires
        message_step(message, answer, before, after, outcome),
    ensures
        state_matches(lifecycle_of(message, answer).last(), outcome.status),
        !lifecycle_of(message, answer).contains(MessageState::Storing) ==> after == before,
        lifecycle_of(message, answer).contains(MessageState::Storing) ==> (parse_result(
            message.body,
        ) matches Ok(members) && after == before.push(StoreCall { record: members, answer })),
{
    lifecycle_is_a_run(message, answer);
    if parse_result(message.body) is Err {
        assert(after =~= before);
    } else {
        let members = parse_result(message.body)->Ok_0;
        assert(after =~= before.push(StoreCall { record: members, answer }));
    }
}

} // verus!
