//! What holds of every batch, stated over the models of the processor.

use vstd::prelude::*;
use crate::error::{ParseErrorView, SinkErrorView};
use crate::message::{message_ids, RawMessageView};
use crate::outcome::{outcome_ids, ItemOutcomeView, StatusView};
use crate::parser::{object_decoding, parse_result};
use crate::processor::{calls_of, calls_upto, process_result, store_calls};
use crate::sink::StoreCall;

verus! {

/// A batch yields exactly one outcome per message: as many outcomes as
/// messages, carrying the identifiers of the messages in batch order. So the
/// identifiers that come out are those that went in, each as often as it went
/// in, and exactly once where the identifiers of the batch are distinct.
pub proof fn one_outcome_per_message(
    batch: Seq<RawMessageView>,
    stores: Seq<Result<(), SinkErrorView>>,
)
    ensures
        process_result(batch, stores).len() == batch.len(),
        outcome_ids(process_result(batch, stores)) == message_ids(batch),
        outcome_ids(process_result(batch, stores)).to_set() == message_ids(batch).to_set(),
        outcome_ids(process_result(batch, stores)).to_multiset() == message_ids(batch).to_multiset(),
        message_ids(batch).no_duplicates() ==> outcome_ids(process_result(batch, stores)).no_duplicates(),
{
    assert(outcome_ids(process_result(batch, stores)) =~= message_ids(batch));
}

/// Every outcome carries the detail that belongs to its status: none for a
/// success, the error's text for a failure. So an outcome has a detail
/// exactly when its message has to be delivered again.
pub proof fn outcomes_are_well_formed(
    batch: Seq<RawMessageView>,
    stores: Seq<Result<(), SinkErrorView>>,
    i: int,
)
    requires
        0 <= i < batch.len(),
    ensures
        process_result(batch, stores)[i].well_formed(),
        process_result(batch, stores)[i].detail is Some <==> process_result(
            batch,
            stores,
        )[i].is_failure(),
{
}

/// A message without a body is a parse failure for a missing body, whatever
/// the other messages of the batch hold and whatever the sink answers.
pub proof fn missing_body_is_parse_failure(
    batch: Seq<RawMessageView>,
    stores: Seq<Result<(), SinkErrorView>>,
    i: int,
)
    requires
        0 <= i < batch.len(),
        batch[i].body is None,
    ensures
        process_result(batch, stores)[i] == ItemOutcomeView::with_status(
            batch[i].id,
            StatusView::ParseFailure(ParseErrorView::Missing),
        ),
{
}

/// A message whose body is not the text of a JSON object is a parse failure
/// for a malformed body, and its detail is the decoder's diagnostic.
pub proof fn malformed_body_is_parse_failure(
    batch: Seq<RawMessageView>,
    stores: Seq<Result<(), SinkErrorView>>,
    i: int,
    text: Seq<char>,
    diagnostic: Seq<char>,
)
    requires
        0 <= i < batch.len(),
        batch[i].body == Some(text),
        object_decoding(text) == Err::<serde_json::Map<String, serde_json::Value>, Seq<char>>(diagnostic),
    ensures
        process_result(batch, stores)[i] == ItemOutcomeView::with_status(
            batch[i].id,
            StatusView::ParseFailure(ParseErrorView::Malformed(diagnostic)),
        ),
        process_result(batch, stores)[i].detail == Some(diagnostic),
{
}

/// A message whose body is the text of a JSON object is a success exactly
/// when the sink stores its record, and otherwise a sink failure that carries
/// the sink's error.
pub proof fn decoded_message_follows_sink(
    batch: Seq<RawMessageView>,
    stores: Seq<Result<(), SinkErrorView>>,
    i: int,
    text: Seq<char>,
)
    requires
        0 <= i < batch.len(),
        batch[i].body == Some(text),
        object_decoding(text) is Ok,
    ensures
        process_result(batch, stores)[i].status is Success <==> stores[i] is Ok,
        stores[i] matches Err(error) ==> process_result(batch, stores)[i]
            == ItemOutcomeView::with_status(batch[i].id, StatusView::SinkFailure(error)),
        stores[i] is Ok ==> process_result(batch, stores)[i] == ItemOutcomeView::with_status(
            batch[i].id,
            StatusView::Success,
        ),
{
}

/// The number of messages among the first `n` of a batch whose body decodes.
pub open spec fn decoded_before(batch: Seq<RawMessageView>, n: int) -> nat
    decreases n,
{
    if n <= 0 {
        0
    } else if parse_result(batch[n - 1].body) is Ok {
        decoded_before(batch, n - 1) + 1
    } else {
        decoded_before(batch, n - 1)
    }
}

/// The count of decoded messages grows along the batch, and grows past every
/// message whose body decodes.
pub proof fn decoded_before_grows(batch: Seq<RawMessageView>, i: int, n: int)
    requires
        0 <= i < n,
    ensures
        decoded_before(batch, i) <= decoded_before(batch, n),
        parse_result(batch[i].body) is Ok ==> decoded_before(batch, i) < decoded_before(batch, n),
    decreases n - i,
{
    if i < n - 1 {
        decoded_before_grows(batch, i, n - 1);
    }
}

/// The calls that the first `n` messages cause: one for each of them whose
/// body decodes, at the place that its rank among the decoded messages gives.
pub proof fn calls_follow_the_decoded_messages(
    batch: Seq<RawMessageView>,
    answers: Seq<Result<(), SinkErrorView>>,
    n: int,
)
    requires
        0 <= n,
    ensures
        calls_upto(batch, answers, n).len() == decoded_before(batch, n),
        forall|i: int|
            0 <= i < n ==> (parse_result(#[trigger] batch[i].body) matches Ok(members)
                ==> decoded_before(batch, i) < decoded_before(batch, n) && calls_upto(
                batch,
                answers,
                n,
            )[decoded_before(batch, i) as int] == (StoreCall { record: members, answer: answers[i] })),
    decreases n,
{
    if n > 0 {
        calls_follow_the_decoded_messages(batch, answers, n - 1);
        assert forall|i: int| 0 <= i < n implies (parse_result(#[trigger] batch[i].body) matches Ok(
            members,
        ) ==> decoded_before(batch, i) < decoded_before(batch, n) && calls_upto(batch, answers, n)[
            decoded_before(batch, i) as int] == (StoreCall {
            record: members,
            answer: answers[i],
        })) by {
            decoded_before_grows(batch, i, n);
        }
    }
}

/// The sink is called once for every message whose body decodes and for no
/// other message, in batch order: there are as many calls as messages whose
/// body decodes, and the call for such a message stands at the rank of the
/// message among them, hands over the members decoded from its body, and got
/// the answer that decided its outcome. So no record is stored twice, and a
/// store that failed is not tried again.
pub proof fn one_store_per_decoded_message(
    batch: Seq<RawMessageView>,
    answers: Seq<Result<(), SinkErrorView>>,
)
    ensures
        store_calls(batch, answers).len() == decoded_before(batch, batch.len() as int),
        store_calls(batch, answers).len() <= batch.len(),
        forall|i: int|
            0 <= i < batch.len() ==> (parse_result(#[trigger] batch[i].body) matches Ok(members)
                ==> decoded_before(batch, i) < store_calls(batch, answers).len() && store_calls(
                batch,
                answers,
            )[decoded_before(batch, i) as int] == (StoreCall { record: members, answer: answers[i] })
                && process_result(batch, answers)[i] == ItemOutcomeView::of_store(
                batch[i].id,
                answers[i],
            )),
        forall|i: int, j: int|
            0 <= i < j < batch.len() && parse_result(#[trigger] batch[i].body) is Ok
                && parse_result(#[trigger] batch[j].body) is Ok ==> decoded_before(batch, i)
                < decoded_before(batch, j),
{
    calls_follow_the_decoded_messages(batch, answers, batch.len() as int);
    decoded_at_most(batch, batch.len() as int);
    assert forall|i: int, j: int|
        0 <= i < j < batch.len() && parse_result(#[trigger] batch[i].body) is Ok && parse_result(
            #[trigger] batch[j].body,
        ) is Ok implies decoded_before(batch, i) < decoded_before(batch, j) by {
        decoded_before_grows(batch, i, j);
    }
}

/// No more messages decode than there are.
pub proof fn decoded_at_most(batch: Seq<RawMessageView>, n: int)
    requires
        0 <= n,
    ensures
        decoded_before(batch, n) <= n,
    decreases n,
{
    if n > 0 {
        decoded_at_most(batch, n - 1);
    }
}

/// A message whose body does not decode causes no call of the sink, and a
/// batch in which no body decodes, an empty batch among them, causes none at
/// all.
pub proof fn no_store_without_a_record(
    batch: Seq<RawMessageView>,
    answers: Seq<Result<(), SinkErrorView>>,
)
    ensures
        forall|i: int|
            0 <= i < batch.len() && parse_result(#[trigger] batch[i].body) is Err ==> calls_of(
                batch[i],
                answers[i],
            ) == Seq::<StoreCall>::empty(),
        (forall|i: int| 0 <= i < batch.len() ==> parse_result(#[trigger] batch[i].body) is Err)
            ==> store_calls(batch, answers) == Seq::<StoreCall>::empty(),
        batch.len() == 0 ==> store_calls(batch, answers) == Seq::<StoreCall>::empty(),
{
    if forall|i: int| 0 <= i < batch.len() ==> parse_result(#[trigger] batch[i].body) is Err {
        calls_follow_the_decoded_messages(batch, answers, batch.len() as int);
        none_decoded(batch, batch.len() as int);
        assert(store_calls(batch, answers).len() == 0);
        assert(store_calls(batch, answers) =~= Seq::<StoreCall>::empty());
    }
}

/// Where no body decodes, the count of decoded messages is zero.
pub proof fn none_decoded(batch: Seq<RawMessageView>, n: int)
    requires
        0 <= n <= batch.len(),
        forall|i: int| 0 <= i < batch.len() ==> parse_result(#[trigger] batch[i].body) is Err,
    ensures
        decoded_before(batch, n) == 0,
    decreases n,
{
    if n > 0 {
        none_decoded(batch, n - 1);
        assert(parse_result(batch[n - 1].body) is Err);
    }
}

/// Failures are isolated: the outcome of a message depends on that message
/// and on the sink's answer for it, and on nothing else. Two batches that
/// differ in one message only, processed against the same answers, differ in
/// the outcome of that message at most.
pub proof fn failures_are_isolated(
    batch: Seq<RawMessageView>,
    poisoned: Seq<RawMessageView>,
    stores: Seq<Result<(), SinkErrorView>>,
    k: int,
)
    requires
        poisoned.len() == batch.len(),
        forall|i: int| 0 <= i < batch.len() && i != k ==> poisoned[i] == batch[i],
    ensures
        forall|i: int|
            0 <= i < batch.len() && i != k ==> #[trigger] process_result(poisoned, stores)[i]
                == process_result(batch, stores)[i],
{
}

/// Processing a batch again gives the same outcomes up to what the sink
/// answers: a message that failed to parse has the same outcome in every
/// run, and every message for which the sink answers the same has the same
/// outcome.
pub proof fn repeated_runs_agree(
    batch: Seq<RawMessageView>,
    first: Seq<Result<(), SinkErrorView>>,
    second: Seq<Result<(), SinkErrorView>>,
    i: int,
)
    requires
        0 <= i < batch.len(),
    ensures
        parse_result(batch[i].body) is Err ==> process_result(batch, first)[i] == process_result(
            batch,
            second,
        )[i],
        first[i] == second[i] ==> process_result(batch, first)[i] == process_result(
            batch,
            second,
        )[i],
{
}

} // verus!
