//! The ways a fetch fails, and the message each failure is reported with.

use crate::decimal::{decimal, decimal_string};
use crate::payload::FetchKind;
use crate::status::{status_line, status_text};
use vstd::prelude::*;
use vstd::string::*;

verus! {

/// A failed fetch, by the stage that failed.
#[derive(Debug, PartialEq, Eq)]
pub enum FetchError {
    /// Every attempt failed before a response was obtained. `cause` is the
    /// transport error of the last attempt.
    TransportExhausted { attempts: u32, cause: String },
    /// A response was obtained, with a status outside the success class.
    HttpStatusFailure { kind: FetchKind, url: String, status: u16, reason: Option<String> },
    /// The body of a successful response could not be read as text.
    BodyReadFailure { cause: String },
    /// The body of a successful response could not be read or parsed as JSON.
    JsonParseFailure { cause: String },
}

/// The mathematical value of a [`FetchError`].
pub enum FetchErrorView {
    TransportExhausted { attempts: u32, cause: Seq<char> },
    HttpStatusFailure { kind: FetchKind, url: Seq<char>, status: u16, reason: Option<Seq<char>> },
    BodyReadFailure { cause: Seq<char> },
    JsonParseFailure { cause: Seq<char> },
}

/// The characters of an optional string.
pub open spec fn option_text(text: Option<String>) -> Option<Seq<char>> {
    match text {
        Some(s) => Some(s@),
        None => None,
    }
}

impl View for FetchError {
    type V = FetchErrorView;

    open spec fn view(&self) -> FetchErrorView {
        match self {
            FetchError::TransportExhausted { attempts, cause } => FetchErrorView::TransportExhausted {
                attempts: *attempts,
                cause: cause@,
            },
            FetchError::HttpStatusFailure { kind, url, status, reason } => FetchErrorView::HttpStatusFailure {
                kind: *kind,
                url: url@,
                status: *status,
                reason: option_text(*reason),
            },
            FetchError::BodyReadFailure { cause } => FetchErrorView::BodyReadFailure { cause: cause@ },
            FetchError::JsonParseFailure { cause } => FetchErrorView::JsonParseFailure { cause: cause@ },
        }
    }
}

impl FetchErrorView {
    /// The message that reports this failure.
    ///
    /// A status failure of a content fetch names the URL, the code and the
    /// reason phrase, `Unknown` where the status has none; one of a JSON
    /// fetch shows the status in full, then the URL.
    pub open spec fn message(self) -> Seq<char> {
        match self {
            FetchErrorView::TransportExhausted { attempts, cause } => {
                "Request failed after "@ + decimal(attempts as nat) + " attempts: "@ + cause
            },
            FetchErrorView::HttpStatusFailure { kind, url, status, reason } => match kind {
                FetchKind::Content => {
                    "Failed to fetch from "@ + url + ": HTTP "@ + decimal(status as nat) + " ("@
                        + match reason {
                        Some(phrase) => phrase,
                        None => "Unknown"@,
                    } + ")"@
                },
                FetchKind::Json => {
                    "JSON request failed with status "@ + status_line(status, reason) + ": "@ + url
                },
            },
            FetchErrorView::BodyReadFailure { cause } => "Failed to read response: "@ + cause,
            FetchErrorView::JsonParseFailure { cause } => "Failed to parse JSON: "@ + cause,
        }
    }
}

impl FetchError {
    /// Renders the message that reports this failure.
    pub fn message(&self) -> (text: String)
        ensures
            text@ == self@.message(),
    {
        match self {
            FetchError::TransportExhausted { attempts, cause } => {
                let mut text = String::from_str("Request failed after ");
                let count = decimal_string(*attempts as u64);
                text.append(count.as_str());
                text.append(" attempts: ");
                text.append(cause.as_str());
                text
            },
            FetchError::HttpStatusFailure { kind, url, status, reason } => match kind {
                FetchKind::Content => {
                    let mut text = String::from_str("Failed to fetch from ");
                    text.append(url.as_str());
                    text.append(": HTTP ");
                    let code = decimal_string(*status as u64);
                    text.append(code.as_str());
                    text.append(" (");
                    match reason {
                        Some(phrase) => text.append(phrase.as_str()),
                        None => text.append("Unknown"),
                    }
                    text.append(")");
                    text
                },
                FetchKind::Json => {
                    let mut text = String::from_str("JSON request failed with status ");
                    let shown = match reason {
                        Some(phrase) => status_text(*status, Some(phrase.as_str())),
                        None => status_text(*status, None),
                    };
                    text.append(shown.as_str());
                    text.append(": ");
                    text.append(url.as_str());
                    text
                },
            },
            FetchError::BodyReadFailure { cause } => {
                let mut text = String::from_str("Failed to read response: ");
                text.append(cause.as_str());
                text
            },
            FetchError::JsonParseFailure { cause } => {
                let mut text = String::from_str("Failed to parse JSON: ");
                text.append(cause.as_str());
                text
            },
        }
    }
}

} // verus!
