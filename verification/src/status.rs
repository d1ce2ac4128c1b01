//! HTTP status codes as the fetch pipeline sees them: the success class, the
//! canonical reason phrase, and the text a status is shown as.

use crate::decimal::{decimal, decimal_string};
use vstd::prelude::*;
use vstd::string::*;

verus! {

/// Whether `code` lies in the success class, 200 up to and including 299.
pub open spec fn is_success_code(code: u16) -> bool {
    200 <= code < 300
}

/// Tests whether a status code reports success.
pub fn code_is_success(code: u16) -> (ok: bool)
    ensures
        ok == is_success_code(code),
{
    200 <= code && code < 300
}

/// The canonical reason phrase of a status code, `None` where the code has none.
pub uninterp spec fn reason_phrase(code: u16) -> Option<Seq<char>>;

/// Looks up the canonical reason phrase with `reqwest::StatusCode::canonical_reason`.
///
/// Not proved: that the phrase handed back is `reason_phrase(code)`. That is
/// the name this crate gives to the table behind `canonical_reason`; a code
/// outside 100..=999, which `StatusCode::from_u16` rejects, has no phrase.
#[verifier::external_body]
pub(crate) fn canonical_reason(code: u16) -> (reason: Option<&'static str>)
    ensures
        (match reason {
            Some(phrase) => reason_phrase(code) == Some(phrase@),
            None => reason_phrase(code) is None,
        }),
{
    match reqwest::StatusCode::from_u16(code) {
        Ok(status) => status.canonical_reason(),
        Err(_) => None,
    }
}

/// A status as it is shown in full: the code in decimal, a space, and the
/// reason phrase, or `<unknown status code>` where there is none.
pub open spec fn status_line(code: u16, reason: Option<Seq<char>>) -> Seq<char> {
    decimal(code as nat) + " "@ + match reason {
        Some(phrase) => phrase,
        None => "<unknown status code>"@,
    }
}

/// Renders a status in full from its code and its reason phrase.
pub fn status_text(code: u16, reason: Option<&str>) -> (text: String)
    ensures
        text@ == status_line(
            code,
            match reason {
                Some(phrase) => Some(phrase@),
                None => None,
            },
        ),
{
    let mut text = decimal_string(code as u64);
    text.append(" ");
    match reason {
        Some(phrase) => text.append(phrase),
        None => text.append("<unknown status code>"),
    }
    text
}

} // verus!
