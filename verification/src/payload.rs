//! What a fetch asks for and what it delivers.

use vstd::prelude::*;

verus! {

/// The two fetch operations.
#[derive(Clone, Copy, Debug, PartialEq, Eq, Structural)]
pub enum FetchKind {
    /// The body is delivered as text.
    Content,
    /// The body is parsed as JSON and delivered as a value.
    Json,
}

/// A fully read response body.
#[derive(Debug, PartialEq)]
pub enum Payload {
    /// The body of a content fetch.
    Text(String),
    /// The parsed body of a JSON fetch.
    Json(serde_json::Value),
}

/// The mathematical value of a [`Payload`].
pub enum PayloadView {
    Text(Seq<char>),
    Json(serde_json::Value),
}

impl View for Payload {
    type V = PayloadView;

    open spec fn view(&self) -> PayloadView {
        match self {
            Payload::Text(text) => PayloadView::Text(text@),
            Payload::Json(value) => PayloadView::Json(*value),
        }
    }
}

impl PayloadView {
    /// The fetch operation that delivers a payload of this shape.
    pub open spec fn kind(self) -> FetchKind {
        match self {
            PayloadView::Text(_) => FetchKind::Content,
            PayloadView::Json(_) => FetchKind::Json,
        }
    }
}

impl Payload {
    /// The fetch operation that delivers a payload of this shape.
    pub fn kind(&self) -> (kind: FetchKind)
        ensures
            kind == self@.kind(),
    {
        match self {
            Payload::Text(_) => FetchKind::Content,
            Payload::Json(_) => FetchKind::Json,
        }
    }

    /// The text of a content payload.
    pub fn into_text(self) -> (text: Option<String>)
        ensures
            (match text {
                Some(body) => self@ == PayloadView::Text(body@),
                None => self@ is Json,
            }),
    {
        match self {
            Payload::Text(body) => Some(body),
            Payload::Json(_) => None,
        }
    }

    /// The value of a JSON payload.
    pub fn into_json(self) -> (value: Option<serde_json::Value>)
        ensures
            (match value {
                Some(document) => self@ == PayloadView::Json(document),
                None => self@ is Text,
            }),
    {
        match self {
            Payload::Text(_) => None,
            Payload::Json(document) => Some(document),
        }
    }
}

} // verus!
