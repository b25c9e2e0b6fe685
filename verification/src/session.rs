//! What the loopback server does with the requests of one login.

use vstd::prelude::*;
use vstd::string::*;

use crate::page::{CallbackPage, RESULT_QUERY};

verus! {

/// How long the result of the login waits for the browser, in seconds.
pub const RESULT_DELIVERY_TIMEOUT_SECS: u64 = 5;

/// How long the result of the login waits for the browser, in nanoseconds.
pub const RESULT_DELIVERY_TIMEOUT_NANOS: u64 = RESULT_DELIVERY_TIMEOUT_SECS * 1_000_000_000;

/// What a request to the server is, as an OAuth callback: with a code and what comes
/// with it, with the provider's error, or no callback at all.
#[derive(Debug)]
pub enum CallbackOutcome<C, E> {
    Success(C),
    Error(E),
    Invalid,
}

/// What an OAuth callback brought.
#[derive(Debug)]
pub enum CallbackResult<C, E> {
    Success(C),
    Error(E),
}

/// What the server is waiting for.
#[derive(Clone, Copy, Debug, PartialEq, Eq, Structural)]
pub enum Phase {
    /// A request, which is to be read as an OAuth callback.
    AwaitingCallback,
    /// The outcome of the login.
    AwaitingOutcome,
    /// The time that has gone by since the outcome of the login was known.
    CheckingTime { page: CallbackPage },
    /// A request for the result, for no longer than a time.
    AwaitingResultRequest { page: CallbackPage, timeout_nanos: u64 },
    /// Nothing more.
    Closed,
}

/// Something that has happened.
#[derive(Debug)]
pub enum Event<C, E> {
    /// A request came, and is this as an OAuth callback.
    CallbackRequest(CallbackOutcome<C, E>),
    /// The outcome of the login is known, as the page that shows it; or, without a
    /// page, the login was dropped.
    Finished(Option<CallbackPage>),
    /// This many nanoseconds have gone by since the outcome of the login was known.
    Elapsed(u128),
    /// A request came, to this address.
    ResultRequest(String),
    /// No request came in time.
    TimedOut,
    /// The server takes no more requests.
    ServerStopped,
}

/// What is to be done: first the reply, then the rest.
#[derive(Debug)]
pub struct Step<C, E> {
    /// The page with which to reply to the request at hand.
    pub reply: Option<CallbackPage>,
    /// What to hand on to the login.
    pub forward: Option<CallbackResult<C, E>>,
    /// Whether to tell the login that it need not wait for the browser any longer.
    pub delivered: bool,
}

/// The step in which nothing is done.
pub open spec fn no_step<C, E>() -> Step<C, E> {
    Step { reply: None, forward: None, delivered: false }
}

/// The step in which a request is replied to.
pub open spec fn reply_step<C, E>(page: CallbackPage) -> Step<C, E> {
    Step { reply: Some(page), forward: None, delivered: false }
}

/// The step in which an OAuth callback is handed on. It is not yet a login.
pub open spec fn forward_step<C, E>(callback: CallbackResult<C, E>) -> Step<C, E> {
    Step { reply: Some(CallbackPage::Pending), forward: Some(callback), delivered: false }
}

/// The step in which the login is told that it need not wait.
pub open spec fn delivered_step<C, E>(reply: Option<CallbackPage>) -> Step<C, E> {
    Step { reply, forward: None, delivered: true }
}

/// What is waited for after `event`, and what is done about it. Of an event that is not
/// waited for, nothing.
pub open spec fn transition<C, E>(
    phase: Phase,
    event: Event<C, E>,
    result_path: Seq<char>,
) -> (Phase, Step<C, E>) {
    match (phase, event) {
        (Phase::AwaitingCallback, Event::CallbackRequest(outcome)) => match outcome {
            CallbackOutcome::Success(callback) => (
                Phase::AwaitingOutcome,
                forward_step(CallbackResult::Success(callback)),
            ),
            CallbackOutcome::Error(error) => (
                Phase::AwaitingOutcome,
                forward_step(CallbackResult::Error(error)),
            ),
            CallbackOutcome::Invalid => (phase, reply_step(CallbackPage::Invalid)),
        },
        (Phase::AwaitingCallback, Event::ServerStopped) => (Phase::Closed, no_step()),
        (Phase::AwaitingOutcome, Event::Finished(outcome)) => (
            Phase::CheckingTime { page: result_page(outcome) },
            no_step(),
        ),
        (Phase::CheckingTime { page }, Event::Elapsed(nanos)) => if nanos
            <= RESULT_DELIVERY_TIMEOUT_NANOS {
            (
                Phase::AwaitingResultRequest {
                    page,
                    timeout_nanos: (RESULT_DELIVERY_TIMEOUT_NANOS - nanos) as u64,
                },
                no_step(),
            )
        } else {
            (Phase::Closed, delivered_step(None))
        },
        (Phase::AwaitingResultRequest { page, .. }, Event::ResultRequest(url)) => if url@
            == result_path {
            (Phase::Closed, delivered_step(Some(page)))
        } else {
            (Phase::CheckingTime { page }, reply_step(CallbackPage::Invalid))
        },
        (Phase::AwaitingResultRequest { page, .. }, Event::TimedOut) => (
            Phase::CheckingTime { page },
            no_step(),
        ),
        (Phase::AwaitingResultRequest { .. }, Event::ServerStopped) => (
            Phase::Closed,
            delivered_step(None),
        ),
        _ => (phase, no_step()),
    }
}

/// The page that shows the outcome of a login: a login that was dropped has failed.
pub open spec fn result_page(outcome: Option<CallbackPage>) -> CallbackPage {
    match outcome {
        Some(page) => page,
        None => CallbackPage::Failure,
    }
}

/// The page that shows the result of a login.
pub fn page_for_result<E>(result: &Result<(), E>) -> (page: CallbackPage)
    ensures
        page == if *result is Ok {
            CallbackPage::Success
        } else {
            CallbackPage::Failure
        },
{
    if result.is_ok() {
        CallbackPage::Success
    } else {
        CallbackPage::Failure
    }
}

/// The requests of one login.
#[derive(Debug)]
pub struct CallbackSession {
    phase: Phase,
    result_path: String,
}

impl CallbackSession {
    /// What is waited for.
    pub closed spec fn awaited(&self) -> Phase {
        self.phase
    }

    /// The address at which the result is shown.
    pub closed spec fn result_address(&self) -> Seq<char> {
        self.result_path@
    }

    /// A login whose OAuth callback comes to the path `expected_callback_path`.
    pub fn new(expected_callback_path: &str) -> (session: CallbackSession)
        ensures
            session.awaited() == Phase::AwaitingCallback,
            session.result_address() == expected_callback_path@ + RESULT_QUERY@,
    {
        let mut result_path = String::new();
        result_path.append(expected_callback_path);
        result_path.append(RESULT_QUERY);
        CallbackSession { phase: Phase::AwaitingCallback, result_path }
    }

    /// What is waited for.
    pub fn phase(&self) -> (phase: Phase)
        ensures
            phase == self.awaited(),
    {
        self.phase
    }

    /// Takes note of `event`, and says what to do about it.
    pub fn step<C, E>(&mut self, event: Event<C, E>) -> (step: Step<C, E>)
        ensures
            (final(self).awaited(), step) == transition(
                old(self).awaited(),
                event,
                old(self).result_address(),
            ),
            final(self).result_address() == old(self).result_address(),
    {
        let mut reply: Option<CallbackPage> = None;
        let mut forward: Option<CallbackResult<C, E>> = None;
        let mut delivered: bool = false;
        match (self.phase, event) {
            (Phase::AwaitingCallback, Event::CallbackRequest(outcome)) => {
                match outcome {
                    CallbackOutcome::Success(callback) => {
                        reply = Some(CallbackPage::Pending);
                        forward = Some(CallbackResult::Success(callback));
                        self.phase = Phase::AwaitingOutcome;
                    },
                    CallbackOutcome::Error(error) => {
                        reply = Some(CallbackPage::Pending);
                        forward = Some(CallbackResult::Error(error));
                        self.phase = Phase::AwaitingOutcome;
                    },
                    CallbackOutcome::Invalid => {
                        reply = Some(CallbackPage::Invalid);
                    },
                }
            },
            (Phase::AwaitingCallback, Event::ServerStopped) => {
                self.phase = Phase::Closed;
            },
            (Phase::AwaitingOutcome, Event::Finished(outcome)) => {
                let page = match outcome {
                    Some(page) => page,
                    None => CallbackPage::Failure,
                };
                self.phase = Phase::CheckingTime { page };
            },
            (Phase::CheckingTime { page }, Event::Elapsed(nanos)) => {
                if nanos <= RESULT_DELIVERY_TIMEOUT_NANOS as u128 {
                    let timeout_nanos = RESULT_DELIVERY_TIMEOUT_NANOS - nanos as u64;
                    self.phase = Phase::AwaitingResultRequest { page, timeout_nanos };
                } else {
                    delivered = true;
                    self.phase = Phase::Closed;
                }
            },
            (Phase::AwaitingResultRequest { page, .. }, Event::ResultRequest(url)) => {
                if url == self.result_path {
                    reply = Some(page);
                    delivered = true;
                    self.phase = Phase::Closed;
                } else {
                    reply = Some(CallbackPage::Invalid);
                    self.phase = Phase::CheckingTime { page };
                }
            },
            (Phase::AwaitingResultRequest { page, .. }, Event::TimedOut) => {
                self.phase = Phase::CheckingTime { page };
            },
            (Phase::AwaitingResultRequest { .. }, Event::ServerStopped) => {
                delivered = true;
                self.phase = Phase::Closed;
            },
            _ => {},
        }
        Step { reply, forward, delivered }
    }
}

} // verus!
