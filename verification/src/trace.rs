//! Whole runs of a fetch: the state that a sequence of events leads to, the
//! actions asked for on the way, and what holds of every run.

use crate::backoff::{backoff_delay, lemma_backoff_delays, MAX_ATTEMPTS};
use crate::error::FetchErrorView;
use crate::json::parsed_json;
use crate::machine::{
    json_outcome, lemma_next_well_formed, lemma_over_is_final, Action, EventView, FetchView,
    PhaseView,
};
use crate::payload::{FetchKind, PayloadView};
use crate::status::{is_success_code, reason_phrase};
use vstd::prelude::*;

verus! {

impl FetchView {
    /// The state after the events of `events`, taken in order.
    pub open spec fn after(self, events: Seq<EventView>) -> FetchView
        decreases events.len(),
    {
        if events.len() == 0 {
            self
        } else {
            self.after(events.drop_last()).next(events.last())
        }
    }

    /// The actions asked for in answer to the events of `events`, one for each.
    pub open spec fn actions(self, events: Seq<EventView>) -> Seq<Action>
        decreases events.len(),
    {
        if events.len() == 0 {
            Seq::empty()
        } else {
            self.actions(events.drop_last()).push(self.after(events).awaited())
        }
    }

    /// Whether each event of `events` reports on the action that was awaited
    /// when it came, as the events of a driver that performs what it is asked do.
    pub open spec fn follows(self, events: Seq<EventView>) -> bool
        decreases events.len(),
    {
        events.len() == 0 || (self.follows(events.drop_last()) && self.after(
            events.drop_last(),
        ).expects(events.last()))
    }
}

/// How many of `actions` ask for a request.
pub open spec fn sends(actions: Seq<Action>) -> nat
    decreases actions.len(),
{
    if actions.len() == 0 {
        0
    } else {
        sends(actions.drop_last()) + if actions.last() == Action::Send {
            1nat
        } else {
            0nat
        }
    }
}

/// How many requests a fetch of `url` has issued once a driver has performed
/// the first request and every action asked for in answer to `events`.
pub open spec fn requests(kind: FetchKind, url: Seq<char>, events: Seq<EventView>) -> nat {
    1 + sends(FetchView::start(kind, url).actions(events))
}

/// The events of `causes.len()` attempts that each fail in transport and are
/// each followed by a pause.
pub open spec fn failed_attempts(causes: Seq<Seq<char>>) -> Seq<EventView>
    decreases causes.len(),
{
    if causes.len() == 0 {
        Seq::empty()
    } else {
        failed_attempts(causes.drop_last()).push(
            EventView::TransportError { cause: causes.last() },
        ).push(EventView::Woke)
    }
}

/// The actions that `count` failed attempts are answered with: after each, a
/// pause of the backoff delay and a new request.
pub open spec fn pauses(count: nat) -> Seq<Action>
    decreases count,
{
    if count == 0 {
        Seq::empty()
    } else {
        pauses((count - 1) as nat).push(
            Action::Sleep { millis: backoff_delay(count) as u64 },
        ).push(Action::Send)
    }
}

/// One more event leads one step further and is answered by one more action.
pub proof fn lemma_push_event(state: FetchView, events: Seq<EventView>, event: EventView)
    ensures
        state.after(events.push(event)) == state.after(events).next(event),
        state.actions(events.push(event)) == state.actions(events).push(
            state.after(events).next(event).awaited(),
        ),
        state.follows(events.push(event)) == (state.follows(events) && state.after(events).expects(
            event,
        )),
{
    assert(events.push(event).drop_last() =~= events);
}

/// One more action that asks for a request is one more request; any other
/// action is none.
pub proof fn lemma_push_action(actions: Seq<Action>, action: Action)
    ensures
        sends(actions.push(action)) == sends(actions) + if action == Action::Send {
            1nat
        } else {
            0nat
        },
{
    assert(actions.push(action).drop_last() =~= actions);
}

/// Every run of a fetch stays within the states that a fetch can be in.
pub proof fn lemma_run_well_formed(state: FetchView, events: Seq<EventView>)
    requires
        state.wf(),
    ensures
        state.after(events).wf(),
    decreases events.len(),
{
    if events.len() > 0 {
        lemma_run_well_formed(state, events.drop_last());
        lemma_next_well_formed(state.after(events.drop_last()), events.last());
    }
}

/// A fetch that is over stays as it is whatever events follow, and asks for
/// no further request.
pub proof fn lemma_over_stays_over(state: FetchView, events: Seq<EventView>)
    requires
        state.is_over(),
    ensures
        state.after(events) == state,
        sends(state.actions(events)) == 0,
    decreases events.len(),
{
    if events.len() > 0 {
        lemma_over_stays_over(state, events.drop_last());
        lemma_over_is_final(state, events.last());
        lemma_push_action(state.actions(events.drop_last()), state.after(events).awaited());
    }
}

/// A run in two parts is the run of the second part from where the first
/// part ends.
pub proof fn lemma_concat_events(state: FetchView, first: Seq<EventView>, second: Seq<EventView>)
    ensures
        state.after(first + second) == state.after(first).after(second),
        state.actions(first + second) == state.actions(first) + state.after(first).actions(second),
        state.follows(first + second) == (state.follows(first) && state.after(first).follows(
            second,
        )),
    decreases second.len(),
{
    if second.len() == 0 {
        assert(first + second =~= first);
        assert(state.actions(first) + state.after(first).actions(second) =~= state.actions(first));
    } else {
        let shorter = second.drop_last();
        lemma_concat_events(state, first, shorter);
        assert(first + second =~= (first + shorter).push(second.last()));
        lemma_push_event(state, first + shorter, second.last());
        assert(state.actions(first + second) =~= state.actions(first) + state.after(first).actions(
            second,
        ));
    }
}

/// The requests asked for in two runs of actions add up.
pub proof fn lemma_concat_actions(first: Seq<Action>, second: Seq<Action>)
    ensures
        sends(first + second) == sends(first) + sends(second),
    decreases second.len(),
{
    if second.len() == 0 {
        assert(first + second =~= first);
    } else {
        lemma_concat_actions(first, second.drop_last());
        assert(first + second =~= (first + second.drop_last()).push(second.last()));
        lemma_push_action(first + second.drop_last(), second.last());
    }
}

/// Fewer than `MAX_ATTEMPTS` failed attempts leave a fetch about to make its
/// next attempt: each failure was answered by a pause of the backoff delay
/// and then a new request, and nothing else was asked for.
pub proof fn lemma_failed_attempts(kind: FetchKind, url: Seq<char>, causes: Seq<Seq<char>>)
    requires
        causes.len() < MAX_ATTEMPTS,
    ensures
        FetchView::start(kind, url).after(failed_attempts(causes)) == (FetchView {
            failures: causes.len() as u32,
            ..FetchView::start(kind, url)
        }),
        FetchView::start(kind, url).actions(failed_attempts(causes)) == pauses(causes.len()),
        FetchView::start(kind, url).follows(failed_attempts(causes)),
        sends(pauses(causes.len())) == causes.len(),
    decreases causes.len(),
{
    let start = FetchView::start(kind, url);
    if causes.len() > 0 {
        let earlier = causes.drop_last();
        lemma_failed_attempts(kind, url, earlier);
        let failure = EventView::TransportError { cause: causes.last() };
        let before = failed_attempts(earlier);
        lemma_push_event(start, before, failure);
        lemma_push_event(start, before.push(failure), EventView::Woke);
        let count = causes.len();
        let pause = Action::Sleep { millis: backoff_delay(count) as u64 };
        lemma_push_action(pauses(earlier.len()), pause);
        lemma_push_action(pauses(earlier.len()).push(pause), Action::Send);
    }
}

/// When fewer than `MAX_ATTEMPTS` attempts fail in transport and the next is
/// answered with a success status, a content fetch delivers exactly the text
/// that is read: the pauses aside, all that is asked for is to read the body.
pub proof fn lemma_content_delivered(
    url: Seq<char>,
    causes: Seq<Seq<char>>,
    status: u16,
    text: Seq<char>,
)
    requires
        causes.len() < MAX_ATTEMPTS,
        is_success_code(status),
    ensures
        ({
            let events = failed_attempts(causes).push(EventView::Response { status }).push(
                EventView::Text { text },
            );
            let start = FetchView::start(FetchKind::Content, url);
            &&& start.after(events).outcome() == Some(
                Ok::<PayloadView, FetchErrorView>(PayloadView::Text(text)),
            )
            &&& start.actions(events) == pauses(causes.len()).push(Action::ReadText).push(
                Action::Stop,
            )
            &&& requests(FetchKind::Content, url, events) == causes.len() + 1
        }),
{
    let start = FetchView::start(FetchKind::Content, url);
    let before = failed_attempts(causes);
    let response = EventView::Response { status };
    lemma_failed_attempts(FetchKind::Content, url, causes);
    lemma_push_event(start, before, response);
    lemma_push_event(start, before.push(response), EventView::Text { text });
    lemma_push_action(pauses(causes.len()), Action::ReadText);
    lemma_push_action(pauses(causes.len()).push(Action::ReadText), Action::Stop);
}

/// When fewer than `MAX_ATTEMPTS` attempts fail in transport and the next is
/// answered with a success status, a JSON fetch delivers exactly what the
/// body parses to, or fails with the parser's error where it does not parse.
pub proof fn lemma_json_delivered(
    url: Seq<char>,
    causes: Seq<Seq<char>>,
    status: u16,
    bytes: Seq<u8>,
)
    requires
        causes.len() < MAX_ATTEMPTS,
        is_success_code(status),
    ensures
        ({
            let events = failed_attempts(causes).push(EventView::Response { status }).push(
                EventView::Bytes { bytes },
            );
            let start = FetchView::start(FetchKind::Json, url);
            &&& start.after(events).outcome() == Some(json_outcome(parsed_json(bytes)))
            &&& start.actions(events) == pauses(causes.len()).push(Action::ReadBytes).push(
                Action::Stop,
            )
            &&& requests(FetchKind::Json, url, events) == causes.len() + 1
        }),
{
    let start = FetchView::start(FetchKind::Json, url);
    let before = failed_attempts(causes);
    let response = EventView::Response { status };
    lemma_failed_attempts(FetchKind::Json, url, causes);
    lemma_push_event(start, before, response);
    lemma_push_event(start, before.push(response), EventView::Bytes { bytes });
    lemma_push_action(pauses(causes.len()), Action::ReadBytes);
    lemma_push_action(pauses(causes.len()).push(Action::ReadBytes), Action::Stop);
}

/// A response with a status outside the success class ends the fetch with a
/// status failure that carries the URL, that status and its reason phrase.
/// The request is not repeated: whatever pauses went before, the one action
/// that answers the response is to stop.
pub proof fn lemma_status_failure(
    kind: FetchKind,
    url: Seq<char>,
    causes: Seq<Seq<char>>,
    status: u16,
)
    requires
        causes.len() < MAX_ATTEMPTS,
        !is_success_code(status),
    ensures
        ({
            let events = failed_attempts(causes).push(EventView::Response { status });
            let start = FetchView::start(kind, url);
            &&& start.after(events).outcome() == Some(
                Err::<PayloadView, FetchErrorView>(
                    FetchErrorView::HttpStatusFailure {
                        kind,
                        url,
                        status,
                        reason: reason_phrase(status),
                    },
                ),
            )
            &&& start.actions(events) == pauses(causes.len()).push(Action::Stop)
            &&& requests(kind, url, events) == causes.len() + 1
            &&& causes.len() == 0 ==> events == seq![EventView::Response { status }]
                && start.actions(events) == seq![Action::Stop]
        }),
{
    let start = FetchView::start(kind, url);
    let before = failed_attempts(causes);
    let response = EventView::Response { status };
    lemma_failed_attempts(kind, url, causes);
    lemma_push_event(start, before, response);
    lemma_push_action(pauses(causes.len()), Action::Stop);
    if causes.len() == 0 {
        assert(before.push(response) =~= seq![response]);
        assert(pauses(0).push(Action::Stop) =~= seq![Action::Stop]);
    }
}

/// When the first attempt is answered with a success status, a content fetch
/// delivers exactly the text that is read and a JSON fetch exactly what the
/// body parses to. One request is made, and no pause.
pub proof fn lemma_immediate_success(url: Seq<char>, status: u16, text: Seq<char>, bytes: Seq<u8>)
    requires
        is_success_code(status),
    ensures
        ({
            let events = seq![EventView::Response { status }, EventView::Text { text }];
            let start = FetchView::start(FetchKind::Content, url);
            &&& start.after(events).outcome() == Some(
                Ok::<PayloadView, FetchErrorView>(PayloadView::Text(text)),
            )
            &&& start.actions(events) == seq![Action::ReadText, Action::Stop]
            &&& requests(FetchKind::Content, url, events) == 1
        }),
        ({
            let events = seq![EventView::Response { status }, EventView::Bytes { bytes }];
            let start = FetchView::start(FetchKind::Json, url);
            &&& start.after(events).outcome() == Some(json_outcome(parsed_json(bytes)))
            &&& start.actions(events) == seq![Action::ReadBytes, Action::Stop]
            &&& requests(FetchKind::Json, url, events) == 1
        }),
{
    let none = Seq::<Seq<char>>::empty();
    let response = EventView::Response { status };
    lemma_content_delivered(url, none, status, text);
    lemma_json_delivered(url, none, status, bytes);
    assert(failed_attempts(none).push(response).push(EventView::Text { text }) =~= seq![
        response,
        EventView::Text { text },
    ]);
    assert(failed_attempts(none).push(response).push(EventView::Bytes { bytes }) =~= seq![
        response,
        EventView::Bytes { bytes },
    ]);
    assert(pauses(0).push(Action::ReadText).push(Action::Stop) =~= seq![
        Action::ReadText,
        Action::Stop,
    ]);
    assert(pauses(0).push(Action::ReadBytes).push(Action::Stop) =~= seq![
        Action::ReadBytes,
        Action::Stop,
    ]);
}

/// When the first attempt fails in transport and the second is answered with
/// a success status, the fetch delivers what the second response holds. There
/// is one pause, of the base delay, and there are two requests.
pub proof fn lemma_one_failure_then_success(
    url: Seq<char>,
    cause: Seq<char>,
    status: u16,
    text: Seq<char>,
    bytes: Seq<u8>,
)
    requires
        is_success_code(status),
    ensures
        ({
            let events = seq![
                EventView::TransportError { cause },
                EventView::Woke,
                EventView::Response { status },
                EventView::Text { text },
            ];
            let start = FetchView::start(FetchKind::Content, url);
            &&& start.after(events).outcome() == Some(
                Ok::<PayloadView, FetchErrorView>(PayloadView::Text(text)),
            )
            &&& start.actions(events) == seq![
                Action::Sleep { millis: 100 },
                Action::Send,
                Action::ReadText,
                Action::Stop,
            ]
            &&& requests(FetchKind::Content, url, events) == 2
        }),
        ({
            let events = seq![
                EventView::TransportError { cause },
                EventView::Woke,
                EventView::Response { status },
                EventView::Bytes { bytes },
            ];
            let start = FetchView::start(FetchKind::Json, url);
            &&& start.after(events).outcome() == Some(json_outcome(parsed_json(bytes)))
            &&& start.actions(events) == seq![
                Action::Sleep { millis: 100 },
                Action::Send,
                Action::ReadBytes,
                Action::Stop,
            ]
            &&& requests(FetchKind::Json, url, events) == 2
        }),
{
    let causes = seq![cause];
    let response = EventView::Response { status };
    let failure = EventView::TransportError { cause };
    lemma_content_delivered(url, causes, status, text);
    lemma_json_delivered(url, causes, status, bytes);
    lemma_backoff_delays();
    reveal_with_fuel(failed_attempts, 2);
    reveal_with_fuel(pauses, 2);
    assert(causes.drop_last() =~= Seq::<Seq<char>>::empty());
    assert(failed_attempts(causes) =~= seq![failure, EventView::Woke]);
    assert(pauses(1) =~= seq![Action::Sleep { millis: 100 }, Action::Send]);
    assert(failed_attempts(causes).push(response).push(EventView::Text { text }) =~= seq![
        failure,
        EventView::Woke,
        response,
        EventView::Text { text },
    ]);
    assert(failed_attempts(causes).push(response).push(EventView::Bytes { bytes }) =~= seq![
        failure,
        EventView::Woke,
        response,
        EventView::Bytes { bytes },
    ]);
    assert(pauses(1).push(Action::ReadText).push(Action::Stop) =~= seq![
        Action::Sleep { millis: 100 },
        Action::Send,
        Action::ReadText,
        Action::Stop,
    ]);
    assert(pauses(1).push(Action::ReadBytes).push(Action::Stop) =~= seq![
        Action::Sleep { millis: 100 },
        Action::Send,
        Action::ReadBytes,
        Action::Stop,
    ]);
}

/// When three attempts in a row fail in transport, a fetch of either kind
/// ends with `TransportExhausted`, which carries the count of three and the
/// error of the last attempt. The pauses last for the base delay and twice
/// the base delay. Three requests are made and no more, whatever is reported
/// to the fetch afterwards.
pub proof fn lemma_three_failures_exhaust(
    kind: FetchKind,
    url: Seq<char>,
    first: Seq<char>,
    second: Seq<char>,
    third: Seq<char>,
    later: Seq<EventView>,
)
    ensures
        ({
            let events = seq![
                EventView::TransportError { cause: first },
                EventView::Woke,
                EventView::TransportError { cause: second },
                EventView::Woke,
                EventView::TransportError { cause: third },
            ];
            let start = FetchView::start(kind, url);
            let exhausted = Some(
                Err::<PayloadView, FetchErrorView>(
                    FetchErrorView::TransportExhausted { attempts: 3, cause: third },
                ),
            );
            &&& start.after(events).outcome() == exhausted
            &&& start.actions(events) == seq![
                Action::Sleep { millis: 100 },
                Action::Send,
                Action::Sleep { millis: 200 },
                Action::Send,
                Action::Stop,
            ]
            &&& requests(kind, url, events) == 3
            &&& start.after(events + later).outcome() == exhausted
            &&& requests(kind, url, events + later) == 3
        }),
{
    let start = FetchView::start(kind, url);
    let causes = seq![first, second];
    let last = EventView::TransportError { cause: third };
    let events = seq![
        EventView::TransportError { cause: first },
        EventView::Woke,
        EventView::TransportError { cause: second },
        EventView::Woke,
        last,
    ];
    let slept = seq![
        Action::Sleep { millis: 100 },
        Action::Send,
        Action::Sleep { millis: 200 },
        Action::Send,
    ];
    lemma_failed_attempts(kind, url, causes);
    lemma_backoff_delays();
    reveal_with_fuel(failed_attempts, 3);
    reveal_with_fuel(pauses, 3);
    assert(causes.drop_last() =~= seq![first]);
    assert(causes.drop_last().drop_last() =~= Seq::<Seq<char>>::empty());
    assert(failed_attempts(causes) =~= events.drop_last());
    assert(pauses(2) =~= slept);
    lemma_push_event(start, failed_attempts(causes), last);
    assert(failed_attempts(causes).push(last) =~= events);
    lemma_push_action(pauses(2), Action::Stop);
    assert(slept.push(Action::Stop) =~= start.actions(events));
    lemma_concat_events(start, events, later);
    lemma_over_stays_over(start.after(events), later);
    lemma_concat_actions(start.actions(events), start.after(events).actions(later));
}

/// A body that does not parse fails a JSON fetch with `JsonParseFailure`,
/// whose cause is the parser's error, and only a JSON fetch: a content fetch
/// of the same response delivers its text, whatever that is.
pub proof fn lemma_parse_failure_is_isolated(
    url: Seq<char>,
    status: u16,
    bytes: Seq<u8>,
    text: Seq<char>,
)
    requires
        is_success_code(status),
        parsed_json(bytes) is Err,
    ensures
        FetchView::start(FetchKind::Json, url).after(
            seq![EventView::Response { status }, EventView::Bytes { bytes }],
        ).outcome() == Some(
            Err::<PayloadView, FetchErrorView>(
                FetchErrorView::JsonParseFailure { cause: parsed_json(bytes)->Err_0 },
            ),
        ),
        FetchView::start(FetchKind::Content, url).after(
            seq![EventView::Response { status }, EventView::Text { text }],
        ).outcome() == Some(Ok::<PayloadView, FetchErrorView>(PayloadView::Text(text))),
{
    lemma_immediate_success(url, status, text, bytes);
}

/// Fetching is repeatable: two fetches of the same kind from the same URL
/// that are answered with the same success status and the same body have the
/// same result, however many of their attempts failed in transport before.
pub proof fn lemma_fetch_repeatable(
    kind: FetchKind,
    url: Seq<char>,
    status: u16,
    body: EventView,
    once: Seq<Seq<char>>,
    again: Seq<Seq<char>>,
)
    requires
        is_success_code(status),
        once.len() < MAX_ATTEMPTS,
        again.len() < MAX_ATTEMPTS,
        (match kind {
            FetchKind::Content => body is Text,
            FetchKind::Json => body is Bytes,
        }),
    ensures
        ({
            let start = FetchView::start(kind, url);
            let response = EventView::Response { status };
            let first = start.after(failed_attempts(once).push(response).push(body));
            let second = start.after(failed_attempts(again).push(response).push(body));
            &&& first.is_over()
            &&& first.outcome() == second.outcome()
        }),
{
    match body {
        EventView::Text { text } => {
            lemma_content_delivered(url, once, status, text);
            lemma_content_delivered(url, again, status, text);
        },
        EventView::Bytes { bytes } => {
            lemma_json_delivered(url, once, status, bytes);
            lemma_json_delivered(url, again, status, bytes);
        },
        _ => {},
    }
}

/// In every run of a fetch whose events report on what was asked for, the
/// requests made keep step with the failed attempts, so that there are never
/// more than `MAX_ATTEMPTS` of them.
pub proof fn lemma_requests_bounded(kind: FetchKind, url: Seq<char>, events: Seq<EventView>)
    requires
        FetchView::start(kind, url).follows(events),
    ensures
        ({
            let state = FetchView::start(kind, url).after(events);
            &&& state.wf()
            &&& requests(kind, url, events) <= MAX_ATTEMPTS
            &&& state.phase is Attempting ==> requests(kind, url, events) == state.failures + 1
            &&& state.phase is Backoff ==> requests(kind, url, events) == state.failures
        }),
    decreases events.len(),
{
    let start = FetchView::start(kind, url);
    if events.len() > 0 {
        let earlier = events.drop_last();
        lemma_requests_bounded(kind, url, earlier);
        lemma_next_well_formed(start.after(earlier), events.last());
        lemma_push_action(start.actions(earlier), start.after(events).awaited());
    }
}

} // verus!
