//! The batch processor: decode, store, and report, one message at a time.

use vstd::prelude::*;
use crate::error::SinkErrorView;
use crate::message::{batch_view, message_ids, RawMessage, RawMessageView};
use crate::outcome::{
    outcome_ids, stored_view, BatchResult, ItemOutcome, ItemOutcomeView, StatusView,
};
use crate::parser::{parse_result, MessageParser};
use crate::sink::{Diagnostics, Recorded, Sink, StoreCall};

verus! {

/// The outcome of one message, given what the sink answers if it is asked.
///
/// A message whose body does not decode is a parse failure whatever the sink
/// would have answered; a message whose body decodes is a success or a sink
/// failure as the sink decides.
pub open spec fn outcome_of(message: RawMessageView, answer: Result<(), SinkErrorView>) -> ItemOutcomeView {
    match parse_result(message.body) {
        Err(error) => ItemOutcomeView::with_status(message.id, StatusView::ParseFailure(error)),
        Ok(_) => ItemOutcomeView::of_store(message.id, answer),
    }
}

/// The calls of the sink that one message causes: one call with the decoded
/// members for a message whose body decodes, none for any other message.
pub open spec fn calls_of(message: RawMessageView, answer: Result<(), SinkErrorView>) -> Seq<StoreCall> {
    match parse_result(message.body) {
        Err(_) => Seq::empty(),
        Ok(members) => seq![(StoreCall { record: members, answer })],
    }
}

/// What processing one message does: with `answer` what the sink answers if
/// it is asked, the message ends in `outcome` and the history of the sink
/// goes from `before` to `after`.
pub open spec fn message_step(
    message: RawMessageView,
    answer: Result<(), SinkErrorView>,
    before: Seq<StoreCall>,
    after: Seq<StoreCall>,
    outcome: ItemOutcomeView,
) -> bool {
    outcome == outcome_of(message, answer) && after == before + calls_of(message, answer)
}

/// The outcomes of a batch, given for each message what the sink answers if
/// it is asked: one outcome per message, in batch order, each depending on
/// its own message and its own answer only.
pub open spec fn process_result(
    batch: Seq<RawMessageView>,
    answers: Seq<Result<(), SinkErrorView>>,
) -> Seq<ItemOutcomeView> {
    Seq::new(batch.len(), |i: int| outcome_of(batch[i], answers[i]))
}

/// The calls of the sink that the first `n` messages of a batch cause, in
/// batch order.
pub open spec fn calls_upto(
    batch: Seq<RawMessageView>,
    answers: Seq<Result<(), SinkErrorView>>,
    n: int,
) -> Seq<StoreCall>
    decreases n,
{
    if n <= 0 {
        Seq::empty()
    } else {
        calls_upto(batch, answers, n - 1) + calls_of(batch[n - 1], answers[n - 1])
    }
}

/// The calls of the sink that a batch causes, in batch order.
pub open spec fn store_calls(
    batch: Seq<RawMessageView>,
    answers: Seq<Result<(), SinkErrorView>>,
) -> Seq<StoreCall> {
    calls_upto(batch, answers, batch.len() as int)
}

/// What processing a batch does: with `answers` what the sink answers for
/// each message if it is asked, the batch ends in `outcomes` and the history
/// of the sink goes from `before` to `after`.
pub open spec fn batch_step(
    batch: Seq<RawMessageView>,
    answers: Seq<Result<(), SinkErrorView>>,
    before: Seq<StoreCall>,
    after: Seq<StoreCall>,
    outcomes: Seq<ItemOutcomeView>,
) -> bool {
    answers.len() == batch.len() && outcomes == process_result(batch, answers) && after == before
        + store_calls(batch, answers)
}

/// Whether a failure to parse comes with a detail that is not empty.
pub open spec fn parse_failure_has_detail(outcome: ItemOutcomeView) -> bool {
    outcome.status is ParseFailure ==> (outcome.detail matches Some(detail) && detail.len() > 0)
}

/// The calls that the first `n` messages cause depend on the first `n`
/// answers only.
pub proof fn lemma_calls_upto_prefix(
    batch: Seq<RawMessageView>,
    first: Seq<Result<(), SinkErrorView>>,
    second: Seq<Result<(), SinkErrorView>>,
    n: int,
)
    requires
        forall|i: int| 0 <= i < n ==> first[i] == second[i],
    ensures
        calls_upto(batch, first, n) == calls_upto(batch, second, n),
    decreases n,
{
    if n > 0 {
        lemma_calls_upto_prefix(batch, first, second, n - 1);
    }
}

/// Processes batches of messages against a sink, reporting to a diagnostics
/// receiver. The sink is held together with the history of the calls that
/// the processor made on it.
pub struct BatchProcessor<S: Sink, D: Diagnostics> {
    pub sink: Recorded<S>,
    pub diagnostics: D,
}

impl<S: Sink, D: Diagnostics> BatchProcessor<S, D> {
    /// A processor that stores into `sink` and reports to `diagnostics`, and
    /// has made no call yet.
    pub fn new(sink: S, diagnostics: D) -> (processor: Self)
        ensures
            processor.sink.inner() == sink,
            processor.sink.handed() == Seq::<StoreCall>::empty(),
            processor.diagnostics == diagnostics,
    {
        BatchProcessor { sink: Recorded::new(sink), diagnostics }
    }

    /// Processes one message: decodes its body, hands the record to the sink
    /// if there is one, and reports the outcome to the diagnostics receiver.
    ///
    /// The sink is left alone for a message whose body does not decode. For a
    /// message whose body decodes it is called once, with the decoded
    /// members, and its answer decides between success and sink failure. The
    /// diagnostics receiver is called with the outcome that is returned.
    pub fn process_message(&mut self, message: &RawMessage) -> (outcome: ItemOutcome)
        ensures
            exists|answer: Result<(), SinkErrorView>| #[trigger]
                message_step(
                    message@,
                    answer,
                    old(self).sink.handed(),
                    final(self).sink.handed(),
                    outcome@,
                ),
            parse_result(message@.body) is Err ==> final(self).sink == old(self).sink,
            parse_failure_has_detail(outcome@),
            exists|target: &mut D|
                mut_ref_current(target) == old(self).diagnostics
                    && mut_ref_future(target) == final(self).diagnostics
                    && #[trigger] call_ensures(D::emit, (target, &outcome), ()),
    {
        let ghost before = self.sink.handed();
        let ghost mut answer: Result<(), SinkErrorView> = Ok(());
        let body = match &message.body {
            Some(text) => Some(text.as_str()),
            None => None,
        };
        let outcome = match MessageParser::parse(body) {
            Err(error) => {
                proof {
                    assert(before + calls_of(message@, answer) == before);
                }
                ItemOutcome::parse_failure(message.id.clone(), error)
            },
            Ok(record) => {
                let ghost members = record@;
                let stored = self.sink.store(record);
                proof {
                    answer = stored_view(stored);
                    assert(before + calls_of(message@, answer) == before.push(
                        StoreCall { record: members, answer },
                    ));
                }
                ItemOutcome::of_store(message.id.clone(), stored)
            },
        };
        self.diagnostics.emit(&outcome);
        assert(message_step(message@, answer, before, self.sink.handed(), outcome@));
        outcome
    }

    /// Processes a batch: every message is processed, in order, whatever
    /// happened to the messages before it.
    ///
    /// The result holds exactly one outcome per message, in batch order. The
    /// sink is called once for each message whose body decodes, in batch
    /// order and with the decoded members, and for no other message; what it
    /// answers for a message decides between success and sink failure. A
    /// message whose body does not decode is reported as the parse failure
    /// that [`parse_result`] names, with a detail that is not empty. The
    /// diagnostics receiver is called with every outcome of the result.
    pub fn process(&mut self, batch: &Vec<RawMessage>) -> (result: BatchResult)
        ensures
            result@.len() == batch@.len(),
            outcome_ids(result@) == message_ids(batch_view(batch@)),
            exists|answers: Seq<Result<(), SinkErrorView>>| #[trigger]
                batch_step(
                    batch_view(batch@),
                    answers,
                    old(self).sink.handed(),
                    final(self).sink.handed(),
                    result@,
                ),
            (forall|i: int|
                0 <= i < batch@.len() ==> parse_result((#[trigger] batch@[i])@.body) is Err)
                ==> final(self).sink == old(self).sink,
            forall|i: int|
                0 <= i < batch@.len() ==> (parse_result(batch@[i]@.body) matches Err(error)
                    ==> #[trigger] result@[i] == ItemOutcomeView::with_status(
                    batch@[i]@.id,
                    StatusView::ParseFailure(error),
                )),
            forall|i: int| 0 <= i < batch@.len() ==> parse_failure_has_detail(#[trigger] result@[i]),
            forall|i: int|
                0 <= i < batch@.len() && parse_result(batch@[i]@.body) is Ok ==> (
                #[trigger] result@[i]).status is Success || result@[i].status is SinkFailure,
            exists|targets: Seq<&mut D>|
                #![trigger targets.len()]
                targets.len() == batch@.len() && forall|i: int|
                    0 <= i < batch@.len() ==> call_ensures(
                        D::emit,
                        (#[trigger] targets[i], &result.outcomes@[i]),
                        (),
                    ),
    {
        let ghost before = self.sink.handed();
        let ghost sink_before = self.sink;
        let ghost messages = batch_view(batch@);
        let ghost mut answers: Seq<Result<(), SinkErrorView>> = Seq::empty();
        let ghost mut targets: Seq<&mut D> = Seq::empty();
        let mut outcomes: Vec<ItemOutcome> = Vec::new();
        let mut i: usize = 0;
        assert(before + calls_upto(messages, answers, 0) == before);
        while i < batch.len()
            invariant
                i <= batch.len(),
                messages == batch_view(batch@),
                outcomes@.len() == i,
                answers.len() == i,
                forall|j: int|
                    0 <= j < i ==> (#[trigger] outcomes@[j])@ == outcome_of(messages[j], answers[j]),
                forall|j: int| 0 <= j < i ==> parse_failure_has_detail((#[trigger] outcomes@[j])@),
                self.sink.handed() == before + calls_upto(messages, answers, i as int),
                (forall|j: int| 0 <= j < i ==> parse_result((#[trigger] batch@[j])@.body) is Err)
                    ==> self.sink == sink_before,
                targets.len() == i,
                forall|j: int|
                    0 <= j < i ==> call_ensures(D::emit, (#[trigger] targets[j], &outcomes@[j]), ()),
            decreases batch.len() - i,
        {
            let ghost done = self.sink.handed();
            let ghost earlier = answers;
            let outcome = self.process_message(&batch[i]);
            proof {
                let message = messages[i as int];
                let answer = choose|answer: Result<(), SinkErrorView>| #[trigger]
                    message_step(message, answer, done, self.sink.handed(), outcome@);
                answers = earlier.push(answer);
                lemma_calls_upto_prefix(messages, earlier, answers, i as int);
                assert(self.sink.handed() == before + calls_upto(messages, answers, i as int + 1));
                let target = choose|target: &mut D|
                    #[trigger] call_ensures(D::emit, (target, &outcome), ());
                targets = targets.push(target);
            }
            outcomes.push(outcome);
            i += 1;
        }
        let result = BatchResult { outcomes };
        proof {
            assert(result@ =~= process_result(messages, answers));
            assert(outcome_ids(result@) =~= message_ids(messages));
            assert(batch_step(messages, answers, before, self.sink.handed(), result@));
        }
        result
    }
}

} // verus!
