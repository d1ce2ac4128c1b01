//! The fetcher: the fixed configuration of the HTTP client, and the entry
//! points that begin a fetch.

use crate::machine::{Fetch, FetchView};
use crate::payload::FetchKind;
use vstd::prelude::*;
use vstd::string::*;

verus! {

/// The timeout of one request, from sending it to the end of its body, in seconds.
pub const REQUEST_TIMEOUT_SECS: u64 = 30;

/// The user agent that every request is sent with.
pub const USER_AGENT: &'static str = "gitcraft-fetcher";

/// Fetches text and JSON documents over HTTP, retrying attempts that fail in
/// transport. It holds the settings that its HTTP client is built with and
/// never changes.
#[derive(Debug)]
pub struct Fetcher {
    timeout_secs: u64,
    user_agent: String,
}

/// The mathematical value of a [`Fetcher`].
pub struct FetcherView {
    pub timeout_secs: u64,
    pub user_agent: Seq<char>,
}

impl View for Fetcher {
    type V = FetcherView;

    closed spec fn view(&self) -> FetcherView {
        FetcherView { timeout_secs: self.timeout_secs, user_agent: self.user_agent@ }
    }
}

impl Fetcher {
    /// A fetcher with the fixed request timeout and user agent.
    pub fn new() -> (fetcher: Fetcher)
        ensures
            fetcher@ == (FetcherView {
                timeout_secs: REQUEST_TIMEOUT_SECS,
                user_agent: USER_AGENT@,
            }),
    {
        Fetcher { timeout_secs: REQUEST_TIMEOUT_SECS, user_agent: String::from_str(USER_AGENT) }
    }

    /// The timeout that the HTTP client gives each request, in seconds.
    pub fn timeout_secs(&self) -> (secs: u64)
        ensures
            secs == self@.timeout_secs,
    {
        self.timeout_secs
    }

    /// The user agent that the HTTP client sends.
    pub fn user_agent(&self) -> (agent: &str)
        ensures
            agent@ == self@.user_agent,
    {
        self.user_agent.as_str()
    }

    /// Begins a fetch of the body of `url` as text. The URL is not examined.
    pub fn fetch_content(&self, url: &str) -> (fetch: Fetch)
        ensures
            fetch@ == FetchView::start(FetchKind::Content, url@),
            fetch@.wf(),
    {
        Fetch::start(FetchKind::Content, url)
    }

    /// Begins a fetch of the body of `url` as a JSON value. The URL is not examined.
    pub fn fetch_json(&self, url: &str) -> (fetch: Fetch)
        ensures
            fetch@ == FetchView::start(FetchKind::Json, url@),
            fetch@.wf(),
    {
        Fetch::start(FetchKind::Json, url)
    }
}

} // verus!
