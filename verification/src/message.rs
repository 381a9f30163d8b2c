//! What enters the pipeline: raw queue messages.

use vstd::prelude::*;

verus! {

/// One message of a batch, as the queue delivered it.
#[derive(Clone, Debug, PartialEq, Eq)]
pub struct RawMessage {
    /// Identifier assigned by the queue; unique within a batch.
    pub id: String,
    /// The payload, if the message carried one.
    pub body: Option<String>,
}

/// Mathematical model of a [`RawMessage`].
pub struct RawMessageView {
    pub id: Seq<char>,
    pub body: Option<Seq<char>>,
}

/// The model of an optional piece of text.
pub open spec fn text_view(text: Option<String>) -> Option<Seq<char>> {
    match text {
        Some(t) => Some(t@),
        None => None,
    }
}

impl View for RawMessage {
    type V = RawMessageView;

    open spec fn view(&self) -> RawMessageView {
        RawMessageView { id: self.id@, body: text_view(self.body) }
    }
}

impl RawMessage {
    /// A message with the given identifier and payload.
    pub fn new(id: String, body: Option<String>) -> (message: RawMessage)
        ensures
            message.id == id,
            message.body == body,
    {
        RawMessage { id, body }
    }
}

/// The models of the messages of a batch, in order.
pub open spec fn batch_view(batch: Seq<RawMessage>) -> Seq<RawMessageView> {
    Seq::new(batch.len(), |i: int| batch[i]@)
}

/// The identifiers of the messages of a batch, in order.
pub open spec fn message_ids(batch: Seq<RawMessageView>) -> Seq<Seq<char>> {
    Seq::new(batch.len(), |i: int| batch[i].id)
}

} // verus!
