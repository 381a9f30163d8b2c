//! What leaves the pipeline: one outcome per message, and the batch result.

use vstd::prelude::*;
use crate::error::{ParseError, ParseErrorView, SinkError, SinkErrorView};

verus! {

/// The terminal status of one message.
#[derive(Clone, Debug, PartialEq, Eq)]
pub enum Status {
    /// The body was decoded and the record was stored.
    Success,
    /// The body could not be decoded; the sink was not called.
    ParseFailure(ParseError),
    /// The body was decoded but the sink did not store the record.
    SinkFailure(SinkError),
}

/// Mathematical model of a [`Status`].
pub enum StatusView {
    Success,
    ParseFailure(ParseErrorView),
    SinkFailure(SinkErrorView),
}

impl View for Status {
    type V = StatusView;

    open spec fn view(&self) -> StatusView {
        match *self {
            Status::Success => StatusView::Success,
            Status::ParseFailure(error) => StatusView::ParseFailure(error@),
            Status::SinkFailure(error) => StatusView::SinkFailure(error@),
        }
    }
}

impl StatusView {
    /// The diagnostic that goes with the status: none for a success, the
    /// error's text for a failure.
    pub open spec fn detail(self) -> Option<Seq<char>> {
        match self {
            StatusView::Success => None,
            StatusView::ParseFailure(error) => Some(error.detail()),
            StatusView::SinkFailure(error) => Some(error.detail()),
        }
    }
}

/// The outcome of processing one message.
#[derive(Clone, Debug, PartialEq, Eq)]
pub struct ItemOutcome {
    /// The identifier of the message this outcome belongs to.
    pub id: String,
    /// How processing of the message ended.
    pub status: Status,
    /// A short diagnostic for a failure; absent for a success.
    pub detail: Option<String>,
}

/// Mathematical model of an [`ItemOutcome`].
pub struct ItemOutcomeView {
    pub id: Seq<char>,
    pub status: StatusView,
    pub detail: Option<Seq<char>>,
}

impl View for ItemOutcome {
    type V = ItemOutcomeView;

    open spec fn view(&self) -> ItemOutcomeView {
        ItemOutcomeView {
            id: self.id@,
            status: self.status@,
            detail: match self.detail {
                Some(text) => Some(text@),
                None => None,
            },
        }
    }
}

impl ItemOutcomeView {
    /// The outcome of the message `id` that ended with `status`.
    pub open spec fn with_status(id: Seq<char>, status: StatusView) -> ItemOutcomeView {
        ItemOutcomeView { id, status, detail: status.detail() }
    }

    /// The outcome of a message whose record the sink answered with `stored`.
    pub open spec fn of_store(id: Seq<char>, stored: Result<(), SinkErrorView>) -> ItemOutcomeView {
        match stored {
            Ok(_) => ItemOutcomeView::with_status(id, StatusView::Success),
            Err(error) => ItemOutcomeView::with_status(id, StatusView::SinkFailure(error)),
        }
    }

    /// Whether the detail is the one that belongs to the status.
    pub open spec fn well_formed(self) -> bool {
        self.detail == self.status.detail()
    }

    /// Whether the message has to be delivered again.
    pub open spec fn is_failure(self) -> bool {
        !(self.status is Success)
    }
}

/// The model of what a sink answered.
pub open spec fn stored_view(stored: Result<(), SinkError>) -> Result<(), SinkErrorView> {
    match stored {
        Ok(_) => Ok(()),
        Err(error) => Err(error@),
    }
}

impl ItemOutcome {
    /// The outcome of a message that was decoded and stored.
    pub fn success(id: String) -> (outcome: ItemOutcome)
        ensures
            outcome@ == ItemOutcomeView::with_status(id@, StatusView::Success),
    {
        ItemOutcome { id, status: Status::Success, detail: None }
    }

    /// The outcome of a message whose body could not be decoded.
    pub fn parse_failure(id: String, error: ParseError) -> (outcome: ItemOutcome)
        ensures
            outcome@ == ItemOutcomeView::with_status(id@, StatusView::ParseFailure(error@)),
    {
        let detail = error.detail();
        ItemOutcome { id, status: Status::ParseFailure(error), detail: Some(detail) }
    }

    /// The outcome of a message whose record the sink did not store.
    pub fn sink_failure(id: String, error: SinkError) -> (outcome: ItemOutcome)
        ensures
            outcome@ == ItemOutcomeView::with_status(id@, StatusView::SinkFailure(error@)),
    {
        let detail = error.detail();
        ItemOutcome { id, status: Status::SinkFailure(error), detail: Some(detail) }
    }

    /// The outcome of a decoded message, given what the sink answered: a
    /// success exactly when the store succeeded, otherwise a sink failure that
    /// carries the sink's error.
    pub fn of_store(id: String, stored: Result<(), SinkError>) -> (outcome: ItemOutcome)
        ensures
            outcome@ == ItemOutcomeView::of_store(id@, stored_view(stored)),
    {
        match stored {
            Ok(_) => ItemOutcome::success(id),
            Err(error) => ItemOutcome::sink_failure(id, error),
        }
    }

    /// Whether the message has to be delivered again.
    pub fn is_failure(&self) -> (failed: bool)
        ensures
            failed == self@.is_failure(),
    {
        match self.status {
            Status::Success => false,
            _ => true,
        }
    }
}

/// The outcomes of one invocation, in the order of the messages of the batch.
#[derive(Clone, Debug, PartialEq, Eq)]
pub struct BatchResult {
    pub outcomes: Vec<ItemOutcome>,
}

/// The models of a sequence of outcomes, in order.
pub open spec fn outcomes_view(outcomes: Seq<ItemOutcome>) -> Seq<ItemOutcomeView> {
    Seq::new(outcomes.len(), |i: int| outcomes[i]@)
}

/// The models of a sequence of texts, in order.
pub open spec fn texts_view(texts: Seq<String>) -> Seq<Seq<char>> {
    Seq::new(texts.len(), |i: int| texts[i]@)
}

/// The identifiers of a sequence of outcomes, in order.
pub open spec fn outcome_ids(outcomes: Seq<ItemOutcomeView>) -> Seq<Seq<char>> {
    Seq::new(outcomes.len(), |i: int| outcomes[i].id)
}

/// The identifiers of the outcomes that are failures, in order: what the
/// invoker has to ask to be delivered again.
pub open spec fn failed_ids_of(outcomes: Seq<ItemOutcomeView>) -> Seq<Seq<char>> {
    outcomes.filter(|outcome: ItemOutcomeView| outcome.is_failure()).map_values(
        |outcome: ItemOutcomeView| outcome.id,
    )
}

impl View for BatchResult {
    type V = Seq<ItemOutcomeView>;

    open spec fn view(&self) -> Seq<ItemOutcomeView> {
        outcomes_view(self.outcomes@)
    }
}

/// Appending one outcome appends its identifier to the failed identifiers
/// exactly when it is a failure.
pub proof fn lemma_failed_ids_push(outcomes: Seq<ItemOutcomeView>, outcome: ItemOutcomeView)
    ensures
        failed_ids_of(outcomes.push(outcome)) == if outcome.is_failure() {
            failed_ids_of(outcomes).push(outcome.id)
        } else {
            failed_ids_of(outcomes)
        },
{
    reveal(Seq::filter);
    assert(outcomes.push(outcome).drop_last() == outcomes);
}

impl BatchResult {
    /// The partial-failure report: the identifiers of the messages that did
    /// not end in `Status::Success`, in batch order.
    pub fn failed_ids(&self) -> (ids: Vec<String>)
        ensures
            texts_view(ids@) == failed_ids_of(self@),
    {
        let mut ids: Vec<String> = Vec::new();
        let mut i: usize = 0;
        proof {
            reveal(Seq::filter);
            assert(self@.take(0) == Seq::<ItemOutcomeView>::empty());
        }
        while i < self.outcomes.len()
            invariant
                i <= self.outcomes.len(),
                texts_view(ids@) == failed_ids_of(self@.take(i as int)),
            decreases self.outcomes.len() - i,
        {
            let outcome = &self.outcomes[i];
            proof {
                lemma_failed_ids_push(self@.take(i as int), outcome@);
                assert(self@.take(i as int + 1) == self@.take(i as int).push(outcome@));
            }
            if outcome.is_failure() {
                ids.push(outcome.id.clone());
            }
            i += 1;
        }
        assert(self@.take(i as int) == self@);
        ids
    }

    /// Whether every message of the batch was decoded and stored, so that
    /// nothing has to be delivered again.
    pub fn all_succeeded(&self) -> (all: bool)
        ensures
            all <==> forall|i: int| 0 <= i < self@.len() ==> (#[trigger] self@[i]).status is Success,
            all <==> failed_ids_of(self@).len() == 0,
    {
        proof {
            nothing_failed_means_all_succeeded(self@);
        }
        let mut i: usize = 0;
        while i < self.outcomes.len()
            invariant
                i <= self.outcomes.len(),
                forall|j: int| 0 <= j < i ==> (#[trigger] self@[j]).status is Success,
                failed_ids_of(self@).len() == 0 <==> forall|j: int|
                    0 <= j < self@.len() ==> (#[trigger] self@[j]).status is Success,
            decreases self.outcomes.len() - i,
        {
            if self.outcomes[i].is_failure() {
                assert(self@[i as int].is_failure());
                return false;
            }
            i += 1;
        }
        true
    }
}

/// The partial-failure report names exactly the messages that did not
/// succeed: an identifier is reported if and only if some outcome with that
/// identifier is a failure.
pub proof fn failed_ids_are_the_failures(outcomes: Seq<ItemOutcomeView>, id: Seq<char>)
    ensures
        failed_ids_of(outcomes).contains(id) <==> exists|i: int|
            0 <= i < outcomes.len() && (#[trigger] outcomes[i]).is_failure() && outcomes[i].id
                == id,
    decreases outcomes.len(),
{
    if outcomes.len() == 0 {
        reveal(Seq::filter);
    } else {
        let init = outcomes.drop_last();
        let last = outcomes.last();
        failed_ids_are_the_failures(init, id);
        lemma_failed_ids_push(init, last);
        assert(outcomes == init.push(last));
        if failed_ids_of(outcomes).contains(id) {
            if last.is_failure() && last.id == id {
                assert(outcomes[outcomes.len() - 1].is_failure());
            } else {
                assert(failed_ids_of(init).contains(id));
                let i = choose|i: int|
                    0 <= i < init.len() && (#[trigger] init[i]).is_failure() && init[i].id == id;
                assert(outcomes[i].is_failure() && outcomes[i].id == id);
            }
        }
        if exists|i: int|
            0 <= i < outcomes.len() && (#[trigger] outcomes[i]).is_failure() && outcomes[i].id
                == id {
            let i = choose|i: int|
                0 <= i < outcomes.len() && (#[trigger] outcomes[i]).is_failure() && outcomes[i].id
                    == id;
            if i < init.len() {
                assert(init[i].is_failure() && init[i].id == id);
                assert(failed_ids_of(init).contains(id));
                let j = choose|j: int|
                    0 <= j < failed_ids_of(init).len() && failed_ids_of(init)[j] == id;
                assert(failed_ids_of(outcomes)[j] == id);
            } else {
                assert(last.is_failure() && last.id == id);
                assert(failed_ids_of(outcomes).last() == id);
            }
        }
    }
}

/// Nothing has to be delivered again exactly when every outcome is a
/// success.
pub proof fn nothing_failed_means_all_succeeded(outcomes: Seq<ItemOutcomeView>)
    ensures
        failed_ids_of(outcomes).len() == 0 <==> forall|i: int|
            0 <= i < outcomes.len() ==> (#[trigger] outcomes[i]).status is Success,
    decreases outcomes.len(),
{
    if outcomes.len() == 0 {
        reveal(Seq::filter);
    } else {
        let init = outcomes.drop_last();
        let last = outcomes.last();
        nothing_failed_means_all_succeeded(init);
        lemma_failed_ids_push(init, last);
        assert(outcomes == init.push(last));
        if failed_ids_of(outcomes).len() == 0 {
            assert forall|i: int| 0 <= i < outcomes.len() implies (#[trigger] outcomes[i]).status is Success by {
                if i < init.len() {
                    assert(init[i].status is Success);
                }
            }
        }
        if forall|i: int| 0 <= i < outcomes.len() ==> (#[trigger] outcomes[i]).status is Success {
            assert forall|i: int| 0 <= i < init.len() implies (#[trigger] init[i]).status is Success by {
                assert(outcomes[i].status is Success);
            }
            assert(outcomes[outcomes.len() - 1].status is Success);
        }
    }
}

} // verus!
