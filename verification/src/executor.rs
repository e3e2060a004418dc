//! The bounded retry protocol wrapping every network send.
//!
//! The transport hands the engine one event per attempt: either a
//! transport-level failure or an HTTP status with its body text.  The engine
//! decides what follows — resend after a linear backoff, succeed with the
//! body, or fail with a classified error.  Only transport failures and HTTP
//! 429 are retried; any other non-success status is treated as deterministic
//! and surfaced at once.

use vstd::prelude::*;

use crate::errors::{ErrorV, IBroadcastError};
use crate::parse::{error_message_from_body, spec_error_message};

verus! {

/// What one send attempt came to, as the transport reports it.
pub enum RequestEvent {
    /// The request never completed: a connection or timeout failure, with
    /// its detail text.
    TransportFailed(String),
    /// The server answered, with an HTTP status code and the body text.
    HttpResponse(u16, String),
}

/// The mathematical shape of a [`RequestEvent`].
pub enum RequestEventV {
    TransportFailed(Seq<char>),
    HttpResponse(u16, Seq<char>),
}

impl View for RequestEvent {
    type V = RequestEventV;

    open spec fn view(&self) -> RequestEventV {
        match self {
            RequestEvent::TransportFailed(d) => RequestEventV::TransportFailed(d@),
            RequestEvent::HttpResponse(s, b) => RequestEventV::HttpResponse(*s, b@),
        }
    }
}

/// The engine's decision after one attempt.
pub enum RetryStep {
    /// Wait this many seconds, then send the same request again.
    Resend(u64),
    /// The request is over: the successful body, or the classified error.
    Finished(Result<String, IBroadcastError>),
}

/// The mathematical shape of a [`RetryStep`].
pub enum RetryStepV {
    Resend(u64),
    Finished(Result<Seq<char>, ErrorV>),
}

impl View for RetryStep {
    type V = RetryStepV;

    open spec fn view(&self) -> RetryStepV {
        match self {
            RetryStep::Resend(w) => RetryStepV::Resend(*w),
            RetryStep::Finished(Ok(b)) => RetryStepV::Finished(Ok(b@)),
            RetryStep::Finished(Err(e)) => RetryStepV::Finished(Err(e@)),
        }
    }
}

/// Whether an HTTP status code counts as success.
pub open spec fn spec_is_success_status(status: u16) -> bool {
    200 <= status < 300
}

/// The linear backoff before retry attempt number `attempt` (counting from
/// one): `attempt` times the base delay, saturated at the largest
/// representable wait.
pub open spec fn spec_backoff(delay: u64, attempt: u32) -> u64 {
    if delay * attempt > u64::MAX {
        u64::MAX
    } else {
        (delay * attempt) as u64
    }
}

/// The decision one event leads to, given how many retries were already
/// used: the new retry count, and the step taken.
///
/// A success status finishes with the body.  A transport failure or a 429
/// consumes a retry when one is left, else finishes with `Network` or
/// `RateLimitExceeded` respectively.  Any other status finishes at once with
/// `Api` carrying the message of the structured error body.
pub open spec fn spec_retry_step(
    max_retries: u32,
    delay: u64,
    retries: u32,
    ev: RequestEventV,
) -> (u32, RetryStepV) {
    match ev {
        RequestEventV::HttpResponse(status, body) => {
            if spec_is_success_status(status) {
                (retries, RetryStepV::Finished(Ok(body)))
            } else if status == 429 {
                if retries < max_retries {
                    (
                        (retries + 1) as u32,
                        RetryStepV::Resend(spec_backoff(delay, (retries + 1) as u32)),
                    )
                } else {
                    (retries, RetryStepV::Finished(Err(ErrorV::RateLimitExceeded)))
                }
            } else {
                (retries, RetryStepV::Finished(Err(ErrorV::Api(spec_error_message(body)))))
            }
        },
        RequestEventV::TransportFailed(detail) => {
            if retries < max_retries {
                (
                    (retries + 1) as u32,
                    RetryStepV::Resend(spec_backoff(delay, (retries + 1) as u32)),
                )
            } else {
                (retries, RetryStepV::Finished(Err(ErrorV::Network(detail))))
            }
        },
    }
}

/// Computes the backoff before retry attempt `attempt`; see [`spec_backoff`].
pub fn backoff(delay: u64, attempt: u32) -> (r: u64)
    ensures
        r == spec_backoff(delay, attempt),
{
    match delay.checked_mul(attempt as u64) {
        Some(w) => w,
        None => u64::MAX,
    }
}

/// Decides what follows one send attempt, advancing the retry count as
/// [`spec_retry_step`] says.
pub fn retry_step(retries: &mut u32, max_retries: u32, delay: u64, ev: RequestEvent) -> (r:
    RetryStep)
    ensures
        *final(retries) == spec_retry_step(max_retries, delay, *old(retries), ev@).0,
        r@ == spec_retry_step(max_retries, delay, *old(retries), ev@).1,
{
    match ev {
        RequestEvent::HttpResponse(status, body) => {
            if 200 <= status && status < 300 {
                RetryStep::Finished(Ok(body))
            } else if status == 429 {
                if *retries < max_retries {
                    *retries = *retries + 1;
                    RetryStep::Resend(backoff(delay, *retries))
                } else {
                    RetryStep::Finished(Err(IBroadcastError::RateLimitExceeded))
                }
            } else {
                let message = error_message_from_body(body.as_str());
                RetryStep::Finished(Err(IBroadcastError::Api(message)))
            }
        },
        RequestEvent::TransportFailed(detail) => {
            if *retries < max_retries {
                *retries = *retries + 1;
                RetryStep::Resend(backoff(delay, *retries))
            } else {
                RetryStep::Finished(Err(IBroadcastError::Network(detail)))
            }
        },
    }
}

/// The outcome of feeding a whole run of events to the retry protocol:
/// the final result when one event finished the request (`None` when the
/// run ended with a resend still pending), and the total backoff waited.
pub open spec fn spec_run(
    max_retries: u32,
    delay: u64,
    retries: u32,
    events: Seq<RequestEventV>,
) -> (Option<Result<Seq<char>, ErrorV>>, nat)
    decreases events.len(),
{
    if events.len() == 0 {
        (None, 0)
    } else {
        let (retries2, step) = spec_retry_step(max_retries, delay, retries, events[0]);
        match step {
            RetryStepV::Finished(res) => (Some(res), 0),
            RetryStepV::Resend(wait) => {
                let (outcome, rest_wait) = spec_run(
                    max_retries,
                    delay,
                    retries2,
                    events.drop_first(),
                );
                (outcome, (wait + rest_wait) as nat)
            },
        }
    }
}

/// The events of a run, each as its mathematical shape.
pub open spec fn events_view(events: Seq<RequestEvent>) -> Seq<RequestEventV> {
    events.map_values(|e: RequestEvent| e@)
}

/// The result of driving one request over a recorded run of events.
pub struct DriveOutcome {
    /// The final result, absent when the events ran out with a resend still
    /// pending.
    pub outcome: Option<Result<String, IBroadcastError>>,
    /// The total backoff the run asked for, in seconds.
    pub total_wait: u128,
}

impl DriveOutcome {
    /// The mathematical shape of the outcome field.
    pub open spec fn outcome_view(self) -> Option<Result<Seq<char>, ErrorV>> {
        match self.outcome {
            Some(Ok(ref b)) => Some(Ok(b@)),
            Some(Err(ref e)) => Some(Err(e@)),
            None => None,
        }
    }
}

/// Drives one request to completion over a run of transport events, starting
/// with a fresh retry budget: each event is classified in turn, and the
/// backoff the protocol asks for is accumulated instead of slept.
#[verifier::loop_isolation(false)]
pub fn drive_request(max_retries: u32, delay: u64, events: Vec<RequestEvent>) -> (r: DriveOutcome)
    ensures
        ({
            let (outcome, wait) = spec_run(max_retries, delay, 0, events_view(events@));
            r.outcome_view() == outcome && r.total_wait == wait
        }),
{
    let ghost all_events = events_view(events@);
    let mut events = events;
    let mut retries: u32 = 0;
    let mut total_wait: u128 = 0;
    loop
        invariant
            total_wait <= retries * (u64::MAX as u128),
            retries <= u32::MAX,
            ({
                let (outcome, wait) = spec_run(max_retries, delay, retries, events_view(events@));
                spec_run(max_retries, delay, 0, all_events) == (
                    outcome,
                    (total_wait + wait) as nat,
                )
            }),
        decreases events@.len(),
    {
        if events.len() == 0 {
            proof {
                assert(events_view(events@).len() == 0);
            }
            return DriveOutcome { outcome: None, total_wait };
        }
        let ghost evs = events_view(events@);
        let ghost retries_before = retries;
        let ev = events.remove(0);
        proof {
            assert(evs[0] == ev@);
            assert(events_view(events@) =~= evs.drop_first());
        }
        let step = retry_step(&mut retries, max_retries, delay, ev);
        proof {
            assert(spec_run(max_retries, delay, retries_before, evs) == (
                match spec_retry_step(max_retries, delay, retries_before, evs[0]).1 {
                    RetryStepV::Finished(res) => (
                        Some(res),
                        0nat,
                    ),
                    RetryStepV::Resend(wait) => {
                        let (outcome, rest_wait) = spec_run(
                            max_retries,
                            delay,
                            retries,
                            evs.drop_first(),
                        );
                        (outcome, (wait + rest_wait) as nat)
                    },
                }
            ));
        }
        match step {
            RetryStep::Finished(res) => {
                proof {
                    assert(step@ == spec_retry_step(max_retries, delay, retries_before, evs[0]).1);
                }
                let r = DriveOutcome { outcome: Some(res), total_wait };
                proof {
                    assert(r.outcome_view() == spec_run(max_retries, delay, 0, all_events).0);
                }
                return r;
            },
            RetryStep::Resend(wait) => {
                proof {
                    assert(total_wait + wait <= retries * (u64::MAX as u128)) by (nonlinear_arith)
                        requires
                            total_wait <= (retries - 1) * (u64::MAX as u128),
                            wait <= u64::MAX,
                            retries >= 1,
                    ;
                }
                total_wait = total_wait + (wait as u128);
            },
        }
    }
}

/// Law: two transport failures followed by a success, against a retry budget
/// of at least two, return the successful body, after a total backoff of one
/// base delay plus two base delays.
pub proof fn lemma_two_failures_then_success(
    d1: Seq<char>,
    d2: Seq<char>,
    status: u16,
    body: Seq<char>,
    max_retries: u32,
    delay: u64,
)
    requires
        max_retries >= 2,
        spec_is_success_status(status),
    ensures
        spec_run(
            max_retries,
            delay,
            0,
            seq![
                RequestEventV::TransportFailed(d1),
                RequestEventV::TransportFailed(d2),
                RequestEventV::HttpResponse(status, body),
            ],
        ) == (
            Some(Ok::<Seq<char>, ErrorV>(body)),
            (spec_backoff(delay, 1) + spec_backoff(delay, 2)) as nat,
        ),
{
    let e1 = seq![
        RequestEventV::TransportFailed(d1),
        RequestEventV::TransportFailed(d2),
        RequestEventV::HttpResponse(status, body),
    ];
    let e2 = seq![RequestEventV::TransportFailed(d2), RequestEventV::HttpResponse(status, body)];
    let e3 = seq![RequestEventV::HttpResponse(status, body)];
    assert(e1.drop_first() =~= e2);
    assert(e2.drop_first() =~= e3);
    assert(e3[0] == RequestEventV::HttpResponse(status, body));
    assert(spec_run(max_retries, delay, 2, e3) == (
        Some(Ok::<Seq<char>, ErrorV>(body)),
        0nat,
    ));
    assert(e2[0] == RequestEventV::TransportFailed(d2));
    assert(spec_run(max_retries, delay, 1, e2) == (
        Some(Ok::<Seq<char>, ErrorV>(body)),
        spec_backoff(delay, 2) as nat,
    ));
    assert(e1[0] == RequestEventV::TransportFailed(d1));
    assert(spec_run(max_retries, delay, 0, e1) == (
        Some(Ok::<Seq<char>, ErrorV>(body)),
        (spec_backoff(delay, 1) + spec_backoff(delay, 2)) as nat,
    ));
}

/// Law: when every attempt fails at the transport level and the events
/// exhaust the remaining retry budget, the run returns `Network` carrying
/// the last failure's detail — never a partial result.
pub proof fn lemma_all_transport_failures(
    events: Seq<RequestEventV>,
    max_retries: u32,
    delay: u64,
    retries: u32,
)
    requires
        retries <= max_retries,
        events.len() == max_retries - retries + 1,
        forall|i: int| 0 <= i < events.len() ==> events[i] is TransportFailed,
    ensures
        spec_run(max_retries, delay, retries, events).0 == Some(
            Err::<Seq<char>, ErrorV>(ErrorV::Network(events.last()->TransportFailed_0)),
        ),
    decreases events.len(),
{
    if events.len() == 1 {
        assert(events[0] is TransportFailed);
    } else {
        assert(events[0] is TransportFailed);
        lemma_all_transport_failures(events.drop_first(), max_retries, delay, (retries + 1) as u32);
        assert(events.drop_first().last() == events.last());
    }
}

/// Law: when the server answers 429 on every attempt and the events exhaust
/// the remaining retry budget, the run returns `RateLimitExceeded`.
pub proof fn lemma_all_rate_limited(
    events: Seq<RequestEventV>,
    max_retries: u32,
    delay: u64,
    retries: u32,
)
    requires
        retries <= max_retries,
        events.len() == max_retries - retries + 1,
        forall|i: int|
            0 <= i < events.len() ==> (#[trigger] events[i] matches RequestEventV::HttpResponse(
                s,
                _,
            ) && s == 429),
    ensures
        spec_run(max_retries, delay, retries, events).0 == Some(
            Err::<Seq<char>, ErrorV>(ErrorV::RateLimitExceeded),
        ),
    decreases events.len(),
{
    if events.len() == 1 {
        assert(events[0] matches RequestEventV::HttpResponse(s, _) && s == 429);
    } else {
        assert(events[0] matches RequestEventV::HttpResponse(s, _) && s == 429);
        lemma_all_rate_limited(events.drop_first(), max_retries, delay, (retries + 1) as u32);
    }
}

/// Law: a non-success status other than 429 ends the request on the spot
/// with `Api` carrying the structured error body's message — no retry, no
/// backoff, whatever events might have followed.
pub proof fn lemma_api_error_not_retried(
    status: u16,
    body: Seq<char>,
    rest: Seq<RequestEventV>,
    max_retries: u32,
    delay: u64,
    retries: u32,
)
    requires
        !spec_is_success_status(status),
        status != 429,
    ensures
        spec_run(
            max_retries,
            delay,
            retries,
            seq![RequestEventV::HttpResponse(status, body)] + rest,
        ) == (Some(Err::<Seq<char>, ErrorV>(ErrorV::Api(spec_error_message(body)))), 0nat),
{
    let events = seq![RequestEventV::HttpResponse(status, body)] + rest;
    assert(events[0] == RequestEventV::HttpResponse(status, body));
}

} // verus!
