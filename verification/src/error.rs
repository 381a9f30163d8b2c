//! The two families of per-message errors.

use vstd::prelude::*;

verus! {

/// Why a message body could not be decoded into a record.
#[derive(Clone, Debug, PartialEq, Eq)]
pub enum ParseError {
    /// The message carried no body at all.
    Missing,
    /// The body is not the text of a JSON object; carries the decoder's diagnostic.
    Malformed(String),
}

/// Mathematical model of a [`ParseError`].
pub enum ParseErrorView {
    Missing,
    Malformed(Seq<char>),
}

impl View for ParseError {
    type V = ParseErrorView;

    open spec fn view(&self) -> ParseErrorView {
        match *self {
            ParseError::Missing => ParseErrorView::Missing,
            ParseError::Malformed(detail) => ParseErrorView::Malformed(detail@),
        }
    }
}

/// Why a sink did not persist a record.
#[derive(Clone, Debug, PartialEq, Eq)]
pub enum SinkError {
    /// The storage backend could not be reached.
    Unavailable,
    /// The storage backend refused the record; carries its explanation.
    Rejected(String),
    /// The store did not complete in time.
    Timeout,
}

/// Mathematical model of a [`SinkError`].
pub enum SinkErrorView {
    Unavailable,
    Rejected(Seq<char>),
    Timeout,
}

impl View for SinkError {
    type V = SinkErrorView;

    open spec fn view(&self) -> SinkErrorView {
        match *self {
            SinkError::Unavailable => SinkErrorView::Unavailable,
            SinkError::Rejected(detail) => SinkErrorView::Rejected(detail@),
            SinkError::Timeout => SinkErrorView::Timeout,
        }
    }
}

/// The detail reported for a message without a body.
pub open spec fn missing_body_detail() -> Seq<char> {
    "message body is missing"@
}

/// The detail reported when the storage backend is unreachable.
pub open spec fn unavailable_detail() -> Seq<char> {
    "sink is unavailable"@
}

/// The detail reported when a store ran out of time.
pub open spec fn timeout_detail() -> Seq<char> {
    "sink timed out"@
}

impl ParseErrorView {
    /// The short diagnostic text of the error.
    pub open spec fn detail(self) -> Seq<char> {
        match self {
            ParseErrorView::Missing => missing_body_detail(),
            ParseErrorView::Malformed(detail) => detail,
        }
    }
}

impl SinkErrorView {
    /// The short diagnostic text of the error.
    pub open spec fn detail(self) -> Seq<char> {
        match self {
            SinkErrorView::Unavailable => unavailable_detail(),
            SinkErrorView::Rejected(detail) => detail,
            SinkErrorView::Timeout => timeout_detail(),
        }
    }
}

impl ParseError {
    /// The short diagnostic text of the error, suitable for logging.
    pub fn detail(&self) -> (text: String)
        ensures
            text@ == self@.detail(),
    {
        match self {
            ParseError::Missing => "message body is missing".to_string(),
            ParseError::Malformed(detail) => detail.clone(),
        }
    }
}

impl SinkError {
    /// The short diagnostic text of the error, suitable for logging.
    pub fn detail(&self) -> (text: String)
        ensures
            text@ == self@.detail(),
    {
        match self {
            SinkError::Unavailable => "sink is unavailable".to_string(),
            SinkError::Rejected(detail) => detail.clone(),
            SinkError::Timeout => "sink timed out".to_string(),
        }
    }
}

} // verus!
