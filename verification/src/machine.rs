//! One fetch as a state machine.
//!
//! The machine makes every decision of a fetch and performs none of its
//! effects. It says which [`Action`] is to be performed next; whoever drives
//! it performs that action and reports what came of it as an [`Event`].

use crate::backoff::{backoff_delay, backoff_millis, MAX_ATTEMPTS};
use crate::error::{FetchError, FetchErrorView};
use crate::json::{parse_json, parsed_json};
use crate::payload::{FetchKind, Payload, PayloadView};
use crate::status::{canonical_reason, code_is_success, is_success_code, reason_phrase};
use vstd::prelude::*;
use vstd::string::*;

verus! {

/// What came of the action that the machine asked for.
#[derive(Debug)]
pub enum Event {
    /// The request was answered by a response with this status code.
    Response { status: u16 },
    /// The request failed before any response was obtained.
    TransportError { cause: String },
    /// The pause is over.
    Woke,
    /// The body of the response, read as text.
    Text { text: String },
    /// The body of the response, read as bytes.
    Bytes { bytes: Vec<u8> },
    /// The body of the response could not be read.
    BodyError { cause: String },
}

/// The mathematical value of an [`Event`].
pub enum EventView {
    Response { status: u16 },
    TransportError { cause: Seq<char> },
    Woke,
    Text { text: Seq<char> },
    Bytes { bytes: Seq<u8> },
    BodyError { cause: Seq<char> },
}

impl View for Event {
    type V = EventView;

    open spec fn view(&self) -> EventView {
        match self {
            Event::Response { status } => EventView::Response { status: *status },
            Event::TransportError { cause } => EventView::TransportError { cause: cause@ },
            Event::Woke => EventView::Woke,
            Event::Text { text } => EventView::Text { text: text@ },
            Event::Bytes { bytes } => EventView::Bytes { bytes: bytes@ },
            Event::BodyError { cause } => EventView::BodyError { cause: cause@ },
        }
    }
}

/// What the driver of a fetch is to do next.
#[derive(Clone, Copy, Debug, PartialEq, Eq, Structural)]
pub enum Action {
    /// Issue a GET request against the URL of the fetch.
    Send,
    /// Pause for this many milliseconds.
    Sleep { millis: u64 },
    /// Read the body of the response as text.
    ReadText,
    /// Read the body of the response as bytes.
    ReadBytes,
    /// Nothing: the fetch is over.
    Stop,
}

/// Where a fetch stands.
#[derive(Debug, PartialEq)]
pub enum Phase {
    /// A request is to be issued, or is under way.
    Attempting,
    /// An attempt has failed and the pause before the next one is under way.
    Backoff,
    /// A response with a success status is held and its body is being read.
    Reading,
    /// Over: the body was delivered.
    Succeeded(Payload),
    /// Over: the fetch failed.
    Failed(FetchError),
}

/// The mathematical value of a [`Phase`].
pub enum PhaseView {
    Attempting,
    Backoff,
    Reading,
    Succeeded(PayloadView),
    Failed(FetchErrorView),
}

impl View for Phase {
    type V = PhaseView;

    open spec fn view(&self) -> PhaseView {
        match self {
            Phase::Attempting => PhaseView::Attempting,
            Phase::Backoff => PhaseView::Backoff,
            Phase::Reading => PhaseView::Reading,
            Phase::Succeeded(payload) => PhaseView::Succeeded(payload@),
            Phase::Failed(error) => PhaseView::Failed(error@),
        }
    }
}

/// The mathematical value of a [`Fetch`].
pub struct FetchView {
    /// The operation.
    pub kind: FetchKind,
    /// The URL that is fetched.
    pub url: Seq<char>,
    /// How many attempts have failed so far.
    pub failures: u32,
    /// Where the fetch stands.
    pub phase: PhaseView,
}

/// What parsing a body gives a JSON fetch, from the outcome of the parser.
pub open spec fn json_outcome(parsed: Result<serde_json::Value, Seq<char>>) -> Result<
    PayloadView,
    FetchErrorView,
> {
    match parsed {
        Ok(value) => Ok(PayloadView::Json(value)),
        Err(cause) => Err(FetchErrorView::JsonParseFailure { cause }),
    }
}

/// The phase that ends a fetch with `outcome`.
pub open spec fn phase_of(outcome: Result<PayloadView, FetchErrorView>) -> PhaseView {
    match outcome {
        Ok(payload) => PhaseView::Succeeded(payload),
        Err(error) => PhaseView::Failed(error),
    }
}

impl FetchView {
    /// A fetch before its first attempt.
    pub open spec fn start(kind: FetchKind, url: Seq<char>) -> FetchView {
        FetchView { kind, url, failures: 0, phase: PhaseView::Attempting }
    }

    /// The states that a fetch can be in.
    pub open spec fn wf(self) -> bool {
        &&& self.failures <= MAX_ATTEMPTS
        &&& self.phase is Attempting ==> self.failures < MAX_ATTEMPTS
        &&& self.phase is Backoff ==> 1 <= self.failures < MAX_ATTEMPTS
        &&& self.phase is Reading ==> self.failures < MAX_ATTEMPTS
        &&& self.phase matches PhaseView::Succeeded(payload) ==> payload.kind() == self.kind
            && self.failures < MAX_ATTEMPTS
        &&& self.phase matches PhaseView::Failed(error) ==> (error
            is TransportExhausted <==> self.failures == MAX_ATTEMPTS)
    }

    /// Whether the fetch is over.
    pub open spec fn is_over(self) -> bool {
        self.phase is Succeeded || self.phase is Failed
    }

    /// The result of the fetch, once it is over.
    pub open spec fn outcome(self) -> Option<Result<PayloadView, FetchErrorView>> {
        match self.phase {
            PhaseView::Succeeded(payload) => Some(Ok(payload)),
            PhaseView::Failed(error) => Some(Err(error)),
            _ => None,
        }
    }

    /// The action that the fetch waits for in this state.
    pub open spec fn awaited(self) -> Action {
        match self.phase {
            PhaseView::Attempting => Action::Send,
            PhaseView::Backoff => Action::Sleep { millis: backoff_delay(self.failures as nat) as u64 },
            PhaseView::Reading => match self.kind {
                FetchKind::Content => Action::ReadText,
                FetchKind::Json => Action::ReadBytes,
            },
            PhaseView::Succeeded(_) => Action::Stop,
            PhaseView::Failed(_) => Action::Stop,
        }
    }

    /// Whether `event` reports on the action that the fetch waits for.
    pub open spec fn expects(self, event: EventView) -> bool {
        match self.phase {
            PhaseView::Attempting => event is Response || event is TransportError,
            PhaseView::Backoff => event is Woke,
            PhaseView::Reading => match self.kind {
                FetchKind::Content => event is Text || event is BodyError,
                FetchKind::Json => event is Bytes || event is BodyError,
            },
            PhaseView::Succeeded(_) => false,
            PhaseView::Failed(_) => false,
        }
    }

    /// The state after an attempt has failed in transport with `cause`: a
    /// pause, or the end of the fetch once `MAX_ATTEMPTS` attempts have failed.
    pub open spec fn retry(self, cause: Seq<char>) -> FetchView {
        let attempts = (self.failures + 1) as u32;
        if attempts >= MAX_ATTEMPTS {
            FetchView {
                failures: attempts,
                phase: PhaseView::Failed(FetchErrorView::TransportExhausted { attempts, cause }),
                ..self
            }
        } else {
            FetchView { failures: attempts, phase: PhaseView::Backoff, ..self }
        }
    }

    /// The state after a response with `status` has arrived: its body is read
    /// if the status reports success, else the fetch is over.
    pub open spec fn validate(self, status: u16) -> FetchView {
        if is_success_code(status) {
            FetchView { phase: PhaseView::Reading, ..self }
        } else {
            FetchView {
                phase: PhaseView::Failed(
                    FetchErrorView::HttpStatusFailure {
                        kind: self.kind,
                        url: self.url,
                        status,
                        reason: reason_phrase(status),
                    },
                ),
                ..self
            }
        }
    }

    /// The failure of a fetch of this kind whose body could not be read.
    pub open spec fn unread(self, cause: Seq<char>) -> FetchErrorView {
        match self.kind {
            FetchKind::Content => FetchErrorView::BodyReadFailure { cause },
            FetchKind::Json => FetchErrorView::JsonParseFailure { cause },
        }
    }

    /// The state that `event` leads to. An event that does not report on the
    /// awaited action changes nothing.
    pub open spec fn next(self, event: EventView) -> FetchView {
        if !self.expects(event) {
            self
        } else {
            match event {
                EventView::Response { status } => self.validate(status),
                EventView::TransportError { cause } => self.retry(cause),
                EventView::Woke => FetchView { phase: PhaseView::Attempting, ..self },
                EventView::Text { text } => FetchView {
                    phase: PhaseView::Succeeded(PayloadView::Text(text)),
                    ..self
                },
                EventView::Bytes { bytes } => FetchView {
                    phase: phase_of(json_outcome(parsed_json(bytes))),
                    ..self
                },
                EventView::BodyError { cause } => FetchView {
                    phase: PhaseView::Failed(self.unread(cause)),
                    ..self
                },
            }
        }
    }
}

/// The mathematical value of what a parser hands back.
pub open spec fn parsed_view(parsed: Result<serde_json::Value, String>) -> Result<
    serde_json::Value,
    Seq<char>,
> {
    match parsed {
        Ok(value) => Ok(value),
        Err(cause) => Err(cause@),
    }
}

/// The mathematical value of the result of a fetch.
pub open spec fn outcome_view(outcome: Result<Payload, FetchError>) -> Result<
    PayloadView,
    FetchErrorView,
> {
    match outcome {
        Ok(payload) => Ok(payload@),
        Err(error) => Err(error@),
    }
}

/// Turns the outcome of the JSON parser into the result of a JSON fetch: the
/// value as payload, or a parse failure with the parser's error text as cause.
pub fn json_result(parsed: Result<serde_json::Value, String>) -> (outcome: Result<
    Payload,
    FetchError,
>)
    ensures
        outcome_view(outcome) == json_outcome(parsed_view(parsed)),
{
    match parsed {
        Ok(value) => Ok(Payload::Json(value)),
        Err(cause) => Err(FetchError::JsonParseFailure { cause }),
    }
}

/// One fetch of one URL, from its first attempt to its result.
#[derive(Debug)]
pub struct Fetch {
    kind: FetchKind,
    url: String,
    failures: u32,
    phase: Phase,
}

impl View for Fetch {
    type V = FetchView;

    closed spec fn view(&self) -> FetchView {
        FetchView { kind: self.kind, url: self.url@, failures: self.failures, phase: self.phase@ }
    }
}

impl Fetch {
    #[verifier::type_invariant]
    spec fn well_formed(self) -> bool {
        self@.wf()
    }

    /// A fetch of `url` before its first attempt. It waits for `Action::Send`.
    pub fn start(kind: FetchKind, url: &str) -> (fetch: Fetch)
        ensures
            fetch@ == FetchView::start(kind, url@),
            fetch@.wf(),
    {
        Fetch { kind, url: String::from_str(url), failures: 0, phase: Phase::Attempting }
    }

    /// The action that the fetch waits for.
    pub fn action(&self) -> (action: Action)
        ensures
            action == self@.awaited(),
    {
        proof {
            use_type_invariant(self);
        }
        match &self.phase {
            Phase::Attempting => Action::Send,
            Phase::Backoff => Action::Sleep { millis: backoff_millis(self.failures) },
            Phase::Reading => match self.kind {
                FetchKind::Content => Action::ReadText,
                FetchKind::Json => Action::ReadBytes,
            },
            Phase::Succeeded(_) => Action::Stop,
            Phase::Failed(_) => Action::Stop,
        }
    }

    /// Decides what follows an attempt that failed in transport with `cause`:
    /// a pause before the next attempt, or, once `MAX_ATTEMPTS` attempts have
    /// failed, the end of the fetch with `cause` as the last error.
    fn retry(self, cause: String) -> (next: Fetch)
        requires
            self@.phase is Attempting,
        ensures
            next@ == self@.retry(cause@),
    {
        proof {
            use_type_invariant(&self);
        }
        let attempts = self.failures + 1;
        if attempts >= MAX_ATTEMPTS {
            Fetch {
                kind: self.kind,
                url: self.url,
                failures: attempts,
                phase: Phase::Failed(FetchError::TransportExhausted { attempts, cause }),
            }
        } else {
            Fetch { kind: self.kind, url: self.url, failures: attempts, phase: Phase::Backoff }
        }
    }

    /// Decides what follows a response with `status`: its body is read if the
    /// status reports success, else the fetch ends with a status failure.
    fn validate(self, status: u16) -> (next: Fetch)
        requires
            self@.phase is Attempting,
        ensures
            next@ == self@.validate(status),
    {
        proof {
            use_type_invariant(&self);
        }
        if code_is_success(status) {
            Fetch { kind: self.kind, url: self.url, failures: self.failures, phase: Phase::Reading }
        } else {
            let reason = match canonical_reason(status) {
                Some(phrase) => Some(String::from_str(phrase)),
                None => None,
            };
            let error = FetchError::HttpStatusFailure {
                kind: self.kind,
                url: self.url.clone(),
                status,
                reason,
            };
            Fetch {
                kind: self.kind,
                url: self.url,
                failures: self.failures,
                phase: Phase::Failed(error),
            }
        }
    }

    /// Ends a fetch whose body has been dealt with.
    fn finish(self, outcome: Result<Payload, FetchError>) -> (next: Fetch)
        requires
            self@.phase is Reading,
            outcome matches Ok(payload) ==> payload@.kind() == self@.kind,
            outcome matches Err(error) ==> !(error@ is TransportExhausted),
        ensures
            next@ == (FetchView { phase: phase_of(outcome_view(outcome)), ..self@ }),
    {
        proof {
            use_type_invariant(&self);
        }
        let phase = match outcome {
            Ok(payload) => Phase::Succeeded(payload),
            Err(error) => Phase::Failed(error),
        };
        Fetch { kind: self.kind, url: self.url, failures: self.failures, phase }
    }

    /// Takes in what came of the awaited action and says what is to be done
    /// next. An event that does not report on the awaited action is ignored.
    pub fn step(self, event: Event) -> (next: (Fetch, Action))
        ensures
            next.0@ == self@.next(event@),
            next.0@.wf(),
            next.1 == next.0@.awaited(),
    {
        proof {
            use_type_invariant(&self);
            lemma_next_well_formed(self@, event@);
        }
        let after = match event {
            Event::Response { status } => match &self.phase {
                Phase::Attempting => self.validate(status),
                _ => self,
            },
            Event::TransportError { cause } => match &self.phase {
                Phase::Attempting => self.retry(cause),
                _ => self,
            },
            Event::Woke => match &self.phase {
                Phase::Backoff => Fetch {
                    kind: self.kind,
                    url: self.url,
                    failures: self.failures,
                    phase: Phase::Attempting,
                },
                _ => self,
            },
            Event::Text { text } => match (&self.phase, self.kind) {
                (Phase::Reading, FetchKind::Content) => self.finish(Ok(Payload::Text(text))),
                _ => self,
            },
            Event::Bytes { bytes } => match (&self.phase, self.kind) {
                (Phase::Reading, FetchKind::Json) => {
                    let parsed = parse_json(bytes.as_slice());
                    self.finish(json_result(parsed))
                },
                _ => self,
            },
            Event::BodyError { cause } => match &self.phase {
                Phase::Reading => {
                    let error = match self.kind {
                        FetchKind::Content => FetchError::BodyReadFailure { cause },
                        FetchKind::Json => FetchError::JsonParseFailure { cause },
                    };
                    self.finish(Err(error))
                },
                _ => self,
            },
        };
        let action = after.action();
        (after, action)
    }

    /// Whether the fetch is over.
    pub fn is_over(&self) -> (over: bool)
        ensures
            over == self@.is_over(),
    {
        match &self.phase {
            Phase::Succeeded(_) => true,
            Phase::Failed(_) => true,
            _ => false,
        }
    }

    /// The result of the fetch, once it is over.
    pub fn into_outcome(self) -> (outcome: Option<Result<Payload, FetchError>>)
        ensures
            (match outcome {
                Some(result) => self@.outcome() == Some(outcome_view(result)),
                None => self@.outcome() is None,
            }),
    {
        match self.phase {
            Phase::Succeeded(payload) => Some(Ok(payload)),
            Phase::Failed(error) => Some(Err(error)),
            _ => None,
        }
    }

    /// The operation.
    pub fn kind(&self) -> (kind: FetchKind)
        ensures
            kind == self@.kind,
    {
        self.kind
    }

    /// The URL that is fetched.
    pub fn url(&self) -> (url: &str)
        ensures
            url@ == self@.url,
    {
        self.url.as_str()
    }

    /// How many attempts have failed so far.
    pub fn failures(&self) -> (failures: u32)
        ensures
            failures == self@.failures,
    {
        self.failures
    }
}

/// Every event leads from a state that a fetch can be in to another such state.
pub proof fn lemma_next_well_formed(state: FetchView, event: EventView)
    requires
        state.wf(),
    ensures
        state.next(event).wf(),
{
}

/// Once a fetch is over, no event changes it and no action is asked for.
pub proof fn lemma_over_is_final(state: FetchView, event: EventView)
    requires
        state.is_over(),
    ensures
        state.next(event) == state,
        state.awaited() == Action::Stop,
{
}

} // verus!
