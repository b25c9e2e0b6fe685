//! What holds of every login and of every page.

use vstd::prelude::*;
use vstd::string::*;
use vstd::utf8::encode_utf8;

use crate::brand::{CallbackBrand, SYNTROPIC_LOGO};
use crate::encoding::{base64_text, is_base64_char, lemma_base64_text, sha256_digest};
use crate::page::{lemma_style, CallbackPage, DOCUMENT_START, RESULT_QUERY, STYLE};
use crate::session::{
    result_page, transition, CallbackOutcome, CallbackResult, Event, Phase, Step,
    RESULT_DELIVERY_TIMEOUT_NANOS,
};
use crate::text::{contains_text, occurs_at};

verus! {

/// What is waited for after `events`, in a login whose result is shown at `result_path`.
pub open spec fn phase_after<C, E>(result_path: Seq<char>, events: Seq<Event<C, E>>) -> Phase
    decreases events.len(),
{
    if events.len() == 0 {
        Phase::AwaitingCallback
    } else {
        transition(phase_after(result_path, events.drop_last()), events.last(), result_path).0
    }
}

/// What is done about the event at `i`.
pub open spec fn step_at<C, E>(
    result_path: Seq<char>,
    events: Seq<Event<C, E>>,
    i: int,
) -> Step<C, E> {
    transition(phase_after(result_path, events.take(i)), events[i], result_path).1
}

/// The page that is held ready for the browser, as the result of the login.
pub open spec fn held_page(phase: Phase) -> Option<CallbackPage> {
    match phase {
        Phase::CheckingTime { page } => Some(page),
        Phase::AwaitingResultRequest { page, .. } => Some(page),
        _ => None,
    }
}

/// Whether the outcome of the login was reported by the event at `i`, when it was waited
/// for, and is shown by `page`.
pub open spec fn reported_at<C, E>(
    result_path: Seq<char>,
    events: Seq<Event<C, E>>,
    i: int,
    page: CallbackPage,
) -> bool {
    &&& 0 <= i < events.len()
    &&& phase_after(result_path, events.take(i)) == Phase::AwaitingOutcome
    &&& events[i] matches Event::Finished(outcome) && result_page(outcome) == page
}

/// One more event.
proof fn lemma_next<C, E>(result_path: Seq<char>, events: Seq<Event<C, E>>, i: int)
    requires
        0 <= i < events.len(),
    ensures
        phase_after(result_path, events.take(i + 1)) == transition(
            phase_after(result_path, events.take(i)),
            events[i],
            result_path,
        ).0,
        events.take(i + 1).drop_last() == events.take(i),
        events.take(i + 1).last() == events[i],
{
    assert(events.take(i + 1).drop_last() == events.take(i));
}

/// A page that is held ready was reported.
proof fn lemma_held_page_was_reported<C, E>(
    result_path: Seq<char>,
    events: Seq<Event<C, E>>,
    i: int,
)
    requires
        0 <= i <= events.len(),
    ensures
        held_page(phase_after(result_path, events.take(i))) matches Some(page) ==> exists|j: int|
            j < i && reported_at(result_path, events, j, page),
    decreases i,
{
    if i > 0 {
        lemma_held_page_was_reported(result_path, events, i - 1);
        lemma_next(result_path, events, i - 1);
        if let Some(page) = held_page(phase_after(result_path, events.take(i))) {
            if held_page(phase_after(result_path, events.take(i - 1))) != Some(page) {
                assert(reported_at(result_path, events, i - 1, page));
            }
        }
    }
}

/// A code is not a completed login: whatever comes, the browser is shown success only
/// after success was reported, by the login to which the callback was handed on.
pub proof fn law_success_is_shown_only_after_it_was_reported<C, E>(
    result_path: Seq<char>,
    events: Seq<Event<C, E>>,
    i: int,
)
    requires
        0 <= i < events.len(),
        step_at(result_path, events, i).reply == Some(CallbackPage::Success),
    ensures
        exists|j: int|
            0 <= j < i && #[trigger] events[j] == Event::<C, E>::Finished(
                Some(CallbackPage::Success),
            ) && phase_after(result_path, events.take(j)) == Phase::AwaitingOutcome,
{
    lemma_held_page_was_reported(result_path, events, i);
    let j = choose|j: int| j < i && reported_at(result_path, events, j, CallbackPage::Success);
    assert(events[j] == Event::<C, E>::Finished(Some(CallbackPage::Success)));
}

/// The result that the browser is shown is the one that was reported, and is shown only
/// after that.
pub proof fn law_result_is_the_reported_one<C, E>(
    result_path: Seq<char>,
    events: Seq<Event<C, E>>,
    i: int,
    page: CallbackPage,
)
    requires
        0 <= i < events.len(),
        step_at(result_path, events, i).delivered,
        step_at(result_path, events, i).reply == Some(page),
    ensures
        exists|j: int| j < i && reported_at(result_path, events, j, page),
{
    lemma_held_page_was_reported(result_path, events, i);
}

/// Dropping the login is a failure: where the login to which the callback was handed on
/// never reported an outcome, the browser is shown nothing but failure as the result.
pub proof fn law_dropped_login_is_a_failure<C, E>(
    result_path: Seq<char>,
    events: Seq<Event<C, E>>,
    i: int,
)
    requires
        0 <= i < events.len(),
        forall|j: int|
            0 <= j < i && phase_after(result_path, events.take(j)) == Phase::AwaitingOutcome ==> (
            #[trigger] events[j] matches Event::Finished(outcome) ==> outcome is None),
        step_at(result_path, events, i).reply is Some,
    ensures
        step_at(result_path, events, i).reply != Some(CallbackPage::Success),
        step_at(result_path, events, i).delivered ==> step_at(result_path, events, i).reply == Some(
            CallbackPage::Failure,
        ),
{
    lemma_held_page_was_reported(result_path, events, i);
    if let Some(page) = held_page(phase_after(result_path, events.take(i))) {
        let j = choose|j: int| j < i && reported_at(result_path, events, j, page);
        assert(events[j] is Finished);
    }
}

/// Whether two events are the same but for what an OAuth callback brought, be it one that
/// is waited for, or one that comes late and is a request like any other that does not ask
/// for the result.
pub open spec fn same_but_for_callback<C, E, D, F>(
    a: Event<C, E>,
    b: Event<D, F>,
    result_path: Seq<char>,
) -> bool {
    match (a, b) {
        (Event::CallbackRequest(p), Event::CallbackRequest(q)) => p is Invalid <==> q is Invalid,
        (Event::Finished(p), Event::Finished(q)) => p == q,
        (Event::Elapsed(p), Event::Elapsed(q)) => p == q,
        (Event::ResultRequest(p), Event::ResultRequest(q)) => (p@ == result_path) == (q@
            == result_path),
        (Event::TimedOut, Event::TimedOut) => true,
        (Event::ServerStopped, Event::ServerStopped) => true,
        _ => false,
    }
}

/// No provider text is rendered: what an OAuth callback brought, be it a code or an
/// error, and be it the first or one that comes late, has no part in which pages the
/// browser is shown, nor in when.
pub proof fn law_provider_text_is_not_shown<C, E, D, F>(
    result_path: Seq<char>,
    events: Seq<Event<C, E>>,
    others: Seq<Event<D, F>>,
)
    requires
        events.len() == others.len(),
        forall|i: int|
            0 <= i < events.len() ==> same_but_for_callback(
                #[trigger] events[i],
                others[i],
                result_path,
            ),
    ensures
        phase_after(result_path, events) == phase_after(result_path, others),
        forall|i: int|
            0 <= i < events.len() ==> (#[trigger] step_at(result_path, events, i)).reply == step_at(
                result_path,
                others,
                i,
            ).reply,
        forall|i: int|
            0 <= i < events.len() ==> (#[trigger] step_at(result_path, events, i)).delivered
                == step_at(result_path, others, i).delivered,
    decreases events.len(),
{
    if events.len() > 0 {
        let a = events.drop_last();
        let b = others.drop_last();
        let n = events.len() - 1;
        assert forall|i: int| 0 <= i < a.len() implies same_but_for_callback(
            #[trigger] a[i],
            b[i],
            result_path,
        ) by {
            assert(same_but_for_callback(events[i], others[i], result_path));
        }
        law_provider_text_is_not_shown(result_path, a, b);
        assert(same_but_for_callback(events[n], others[n], result_path));
        assert(events.take(n) == a && others.take(n) == b);
        assert forall|i: int| 0 <= i < events.len() implies (#[trigger] step_at(
            result_path,
            events,
            i,
        )).reply == step_at(result_path, others, i).reply && step_at(
            result_path,
            events,
            i,
        ).delivered == step_at(result_path, others, i).delivered by {
            if i < n {
                assert(a.take(i) == events.take(i) && b.take(i) == others.take(i));
                assert(step_at(result_path, a, i) == step_at(result_path, events, i));
                assert(step_at(result_path, b, i) == step_at(result_path, others, i));
            }
        }
    }
}

/// How far a login has come.
spec fn stage(phase: Phase) -> int {
    match phase {
        Phase::AwaitingCallback => 0,
        Phase::AwaitingOutcome => 1,
        Phase::CheckingTime { .. } => 2,
        Phase::AwaitingResultRequest { .. } => 2,
        Phase::Closed => 3,
    }
}

/// A login never goes back.
proof fn lemma_stages<C, E>(result_path: Seq<char>, events: Seq<Event<C, E>>, i: int, j: int)
    requires
        0 <= i <= j <= events.len(),
    ensures
        stage(phase_after(result_path, events.take(i))) <= stage(
            phase_after(result_path, events.take(j)),
        ),
    decreases j - i,
{
    if i < j {
        lemma_next(result_path, events, j - 1);
        lemma_stages(result_path, events, i, j - 1);
    }
}

/// One OAuth callback at most is handed on, as it came, and its request is told to wait.
pub proof fn law_one_callback_is_handed_on<C, E>(
    result_path: Seq<char>,
    events: Seq<Event<C, E>>,
    i: int,
    j: int,
)
    requires
        0 <= i < events.len(),
        0 <= j < events.len(),
        step_at(result_path, events, i).forward is Some,
        step_at(result_path, events, j).forward is Some,
    ensures
        i == j,
        step_at(result_path, events, i).reply == Some(CallbackPage::Pending),
        events[i] == Event::CallbackRequest(
            match step_at(result_path, events, i).forward->0 {
                CallbackResult::Success(callback) => CallbackOutcome::Success(callback),
                CallbackResult::Error(error) => CallbackOutcome::Error(error),
            },
        ),
{
    lemma_next(result_path, events, i);
    lemma_next(result_path, events, j);
    if i < j {
        lemma_stages(result_path, events, i + 1, j);
    } else if j < i {
        lemma_stages(result_path, events, j + 1, i);
    }
}

/// The login is told once at most that it need not wait, and only after a callback was
/// handed on to it.
pub proof fn law_delivery_is_told_once<C, E>(
    result_path: Seq<char>,
    events: Seq<Event<C, E>>,
    i: int,
    j: int,
)
    requires
        0 <= i < events.len(),
        0 <= j < events.len(),
        step_at(result_path, events, i).delivered,
        step_at(result_path, events, j).delivered,
    ensures
        i == j,
        exists|k: int| 0 <= k < i && (#[trigger] step_at(result_path, events, k)).forward is Some,
{
    lemma_next(result_path, events, i);
    lemma_next(result_path, events, j);
    if i < j {
        lemma_stages(result_path, events, i + 1, j);
    } else if j < i {
        lemma_stages(result_path, events, j + 1, i);
    }
    lemma_past_callback_was_handed_on(result_path, events, i);
}

proof fn lemma_past_callback_was_handed_on<C, E>(
    result_path: Seq<char>,
    events: Seq<Event<C, E>>,
    i: int,
)
    requires
        0 <= i <= events.len(),
        1 <= stage(phase_after(result_path, events.take(i))) <= 2,
    ensures
        exists|k: int| 0 <= k < i && (#[trigger] step_at(result_path, events, k)).forward is Some,
    decreases i,
{
    if i > 0 {
        lemma_next(result_path, events, i - 1);
        if stage(phase_after(result_path, events.take(i - 1))) >= 1 {
            lemma_past_callback_was_handed_on(result_path, events, i - 1);
        } else {
            assert(step_at(result_path, events, i - 1).forward is Some);
        }
    }
}

/// A login to which a callback was handed on is not left waiting: when the server is
/// done, the login was told.
pub proof fn law_login_is_not_left_waiting<C, E>(
    result_path: Seq<char>,
    events: Seq<Event<C, E>>,
    i: int,
    j: int,
)
    requires
        0 <= i < j <= events.len(),
        step_at(result_path, events, i).forward is Some,
        phase_after(result_path, events.take(j)) == Phase::Closed,
    ensures
        exists|k: int| i < k < j && (#[trigger] step_at(result_path, events, k)).delivered,
    decreases j,
{
    lemma_next(result_path, events, i);
    lemma_next(result_path, events, j - 1);
    if phase_after(result_path, events.take(j - 1)) == Phase::Closed {
        law_login_is_not_left_waiting(result_path, events, i, j - 1);
    } else {
        lemma_stages(result_path, events, i + 1, j - 1);
        assert(step_at(result_path, events, j - 1).delivered);
    }
}

/// Once the result was shown or given up, nothing more is done.
pub proof fn law_nothing_is_done_after_delivery<C, E>(
    result_path: Seq<char>,
    events: Seq<Event<C, E>>,
    i: int,
    j: int,
)
    requires
        0 <= i < j < events.len(),
        step_at(result_path, events, i).delivered,
    ensures
        step_at(result_path, events, j).reply is None,
        step_at(result_path, events, j).forward is None,
        !step_at(result_path, events, j).delivered,
{
    lemma_next(result_path, events, i);
    lemma_stages(result_path, events, i + 1, j);
}

/// A request that is waited for is replied to at once, and nothing else is.
pub proof fn law_every_request_is_replied_to<C, E>(
    phase: Phase,
    event: Event<C, E>,
    result_path: Seq<char>,
)
    ensures
        transition(phase, event, result_path).1.reply is Some <==> {
            ||| phase is AwaitingCallback && event is CallbackRequest
            ||| phase is AwaitingResultRequest && event is ResultRequest
        },
{
}

/// A request that does not match is told so, and the login goes on: a callback is awaited
/// as before, and a result is held as before, but is not awaited anew until the time was
/// looked at.
pub proof fn law_invalid_requests_change_nothing<C, E>(
    result_path: Seq<char>,
    page: CallbackPage,
    timeout_nanos: u64,
    url: String,
)
    requires
        url@ != result_path,
    ensures
        ({
            let (phase, step) = transition(
                Phase::AwaitingCallback,
                Event::<C, E>::CallbackRequest(CallbackOutcome::Invalid),
                result_path,
            );
            &&& phase == Phase::AwaitingCallback
            &&& step.reply == Some(CallbackPage::Invalid)
            &&& step.forward is None
            &&& !step.delivered
        }),
        ({
            let (phase, step) = transition(
                Phase::AwaitingResultRequest { page, timeout_nanos },
                Event::<C, E>::ResultRequest(url),
                result_path,
            );
            &&& phase == Phase::CheckingTime { page }
            &&& step.reply == Some(CallbackPage::Invalid)
            &&& step.forward is None
            &&& !step.delivered
        }),
{
}

/// The first OAuth callback is handed on as it came, its request is told to wait, and the
/// outcome of the login is awaited from then on. A code and an error are treated alike.
pub proof fn law_callback_is_handed_on_as_it_came<C, E>(
    result_path: Seq<char>,
    code: C,
    error: E,
)
    ensures
        ({
            let (phase, step) = transition(
                Phase::AwaitingCallback,
                Event::<C, E>::CallbackRequest(CallbackOutcome::Success(code)),
                result_path,
            );
            &&& phase == Phase::AwaitingOutcome
            &&& step.reply == Some(CallbackPage::Pending)
            &&& step.forward == Some(CallbackResult::<C, E>::Success(code))
            &&& !step.delivered
        }),
        ({
            let (phase, step) = transition(
                Phase::AwaitingCallback,
                Event::<C, E>::CallbackRequest(CallbackOutcome::Error(error)),
                result_path,
            );
            &&& phase == Phase::AwaitingOutcome
            &&& step.reply == Some(CallbackPage::Pending)
            &&& step.forward == Some(CallbackResult::<C, E>::Error(error))
            &&& !step.delivered
        }),
{
}

/// The page that is reported is the one that is held for the browser, and a login that is
/// dropped without a report has failure held for it. Nothing is done yet: the time is looked
/// at first.
pub proof fn law_reported_page_is_held<C, E>(result_path: Seq<char>, page: CallbackPage)
    ensures
        ({
            let (phase, step) = transition(
                Phase::AwaitingOutcome,
                Event::<C, E>::Finished(Some(page)),
                result_path,
            );
            &&& phase == Phase::CheckingTime { page }
            &&& step.reply is None && step.forward is None && !step.delivered
        }),
        ({
            let (phase, step) = transition(
                Phase::AwaitingOutcome,
                Event::<C, E>::Finished(None),
                result_path,
            );
            &&& phase == Phase::CheckingTime { page: CallbackPage::Failure }
            &&& step.reply is None && step.forward is None && !step.delivered
        }),
        result_page(Some(page)) == page,
        result_page(None) == CallbackPage::Failure,
{
}

/// The request for the result is shown the page that is held, whatever was left of the time;
/// the login is told, and the session is closed.
pub proof fn law_result_request_is_shown_the_held_page<C, E>(
    result_path: Seq<char>,
    page: CallbackPage,
    timeout_nanos: u64,
    url: String,
)
    requires
        url@ == result_path,
    ensures
        ({
            let (phase, step) = transition(
                Phase::AwaitingResultRequest { page, timeout_nanos },
                Event::<C, E>::ResultRequest(url),
                result_path,
            );
            &&& phase == Phase::Closed
            &&& step.reply == Some(page)
            &&& step.forward is None
            &&& step.delivered
        }),
{
}

/// A server that takes no more requests ends the session wherever a request is awaited: with
/// no callback yet, there is no login to tell; with a result held, the login is told. Nothing
/// is replied or handed on. Where no request is awaited, nothing comes of it.
pub proof fn law_stopped_server_ends_the_session<C, E>(
    result_path: Seq<char>,
    page: CallbackPage,
    timeout_nanos: u64,
)
    ensures
        ({
            let (phase, step) = transition(
                Phase::AwaitingCallback,
                Event::<C, E>::ServerStopped,
                result_path,
            );
            &&& phase == Phase::Closed
            &&& step.reply is None && step.forward is None && !step.delivered
        }),
        ({
            let (phase, step) = transition(
                Phase::AwaitingResultRequest { page, timeout_nanos },
                Event::<C, E>::ServerStopped,
                result_path,
            );
            &&& phase == Phase::Closed
            &&& step.reply is None && step.forward is None && step.delivered
        }),
{
}

/// When a request for the result was awaited in vain, the time is looked at again, with the
/// same page held and nothing done, however long the wait was to be; and if five seconds have
/// gone by then, the login is told and the session is closed.
pub proof fn law_time_out_is_followed_by_the_deadline<C, E>(
    result_path: Seq<char>,
    page: CallbackPage,
    timeout_nanos: u64,
    elapsed_nanos: u128,
)
    requires
        elapsed_nanos > 5_000_000_000,
    ensures
        ({
            let (phase, step) = transition(
                Phase::AwaitingResultRequest { page, timeout_nanos },
                Event::<C, E>::TimedOut,
                result_path,
            );
            let (after, last) = transition(
                phase,
                Event::<C, E>::Elapsed(elapsed_nanos),
                result_path,
            );
            &&& phase == Phase::CheckingTime { page }
            &&& step.reply is None && step.forward is None && !step.delivered
            &&& after == Phase::Closed
            &&& last.reply is None && last.forward is None && last.delivered
        }),
{
}

/// A stray request does not put off the deadline: if five seconds have gone by when the time
/// is looked at after it, the login is told and the session is closed.
pub proof fn law_stray_request_does_not_put_off_the_deadline<C, E>(
    result_path: Seq<char>,
    page: CallbackPage,
    timeout_nanos: u64,
    url: String,
    elapsed_nanos: u128,
)
    requires
        url@ != result_path,
        elapsed_nanos > 5_000_000_000,
    ensures
        ({
            let (phase, step) = transition(
                Phase::AwaitingResultRequest { page, timeout_nanos },
                Event::<C, E>::ResultRequest(url),
                result_path,
            );
            let (after, last) = transition(
                phase,
                Event::<C, E>::Elapsed(elapsed_nanos),
                result_path,
            );
            &&& step.reply == Some(CallbackPage::Invalid)
            &&& after == Phase::Closed
            &&& last.reply is None && last.forward is None && last.delivered
        }),
{
}

/// An event that is not waited for changes nothing, and nothing is done about it.
pub proof fn law_unawaited_events_change_nothing<C, E>(
    result_path: Seq<char>,
    phase: Phase,
    event: Event<C, E>,
)
    requires
        phase is AwaitingCallback ==> !(event is CallbackRequest) && !(event is ServerStopped),
        phase is AwaitingOutcome ==> !(event is Finished),
        phase is CheckingTime ==> !(event is Elapsed),
        phase is AwaitingResultRequest ==> !(event is ResultRequest) && !(event is TimedOut) && !(
        event is ServerStopped),
    ensures
        ({
            let (after, step) = transition(phase, event, result_path);
            &&& after == phase
            &&& step.reply is None && step.forward is None && !step.delivered
        }),
{
}

/// There is one deadline. Whenever a request for the result is awaited, in any login, the
/// time was looked at before, was then what is not left of the five seconds, and since then
/// nothing was awaited in vain and no request has come.
pub proof fn law_there_is_one_deadline<C, E>(
    result_path: Seq<char>,
    events: Seq<Event<C, E>>,
    i: int,
)
    requires
        0 <= i <= events.len(),
        phase_after(result_path, events.take(i)) is AwaitingResultRequest,
    ensures
        exists|j: int|
            0 <= j < i && (#[trigger] events[j] matches Event::Elapsed(nanos) && nanos
                + phase_after(result_path, events.take(i))->timeout_nanos == 5_000_000_000) && (
            forall|k: int|
                j < k < i ==> !(#[trigger] events[k] is TimedOut) && !(
                events[k] is ResultRequest)),
    decreases i,
{
    if i > 0 {
        lemma_next(result_path, events, i - 1);
        if phase_after(result_path, events.take(i - 1)) is AwaitingResultRequest {
            law_there_is_one_deadline(result_path, events, i - 1);
            let j = choose|j: int|
                0 <= j < i - 1 && (#[trigger] events[j] matches Event::Elapsed(nanos) && nanos
                    + phase_after(result_path, events.take(i - 1))->timeout_nanos == 5_000_000_000)
                    && (forall|k: int|
                    j < k < i - 1 ==> !(#[trigger] events[k] is TimedOut) && !(
                    events[k] is ResultRequest));
            assert(events[j] is Elapsed);
            assert(forall|k: int|
                j < k < i ==> !(#[trigger] events[k] is TimedOut) && !(
                events[k] is ResultRequest));
        } else {
            assert(events[i - 1] is Elapsed);
        }
    }
}

/// A request for the result is waited for no longer than the time allowed, five seconds.
pub proof fn law_wait_is_bounded<C, E>(result_path: Seq<char>, events: Seq<Event<C, E>>)
    ensures
        phase_after(result_path, events) matches Phase::AwaitingResultRequest { timeout_nanos, .. }
            ==> timeout_nanos <= 5_000_000_000,
    decreases events.len(),
{
    if events.len() > 0 {
        law_wait_is_bounded(result_path, events.drop_last());
    }
}

/// A request for the result is waited for until five seconds have gone by since the outcome
/// of the login was known, and no longer.
pub proof fn law_wait_ends_at_the_deadline<C, E>(
    result_path: Seq<char>,
    page: CallbackPage,
    elapsed_nanos: u128,
)
    ensures
        ({
            let (phase, step) = transition(
                Phase::CheckingTime { page },
                Event::<C, E>::Elapsed(elapsed_nanos),
                result_path,
            );
            &&& step.reply is None
            &&& step.forward is None
            &&& if elapsed_nanos <= 5_000_000_000 {
                &&& phase matches Phase::AwaitingResultRequest { page: p, timeout_nanos }
                &&& p == page
                &&& elapsed_nanos + timeout_nanos == 5_000_000_000
                &&& !step.delivered
            } else {
                phase == Phase::Closed && step.delivered
            }
        }),
{
}

/// Whether an OAuth callback is still waited for after `event`, if it was before.
pub open spec fn keeps_awaiting_callback<C, E>(event: Event<C, E>) -> bool {
    match event {
        Event::CallbackRequest(outcome) => outcome is Invalid,
        Event::ServerStopped => false,
        _ => true,
    }
}

/// Whether the result is still held ready after `event`, if it was before.
pub open spec fn keeps_holding_result<C, E>(event: Event<C, E>, result_path: Seq<char>) -> bool {
    match event {
        Event::ResultRequest(url) => url@ != result_path,
        Event::Elapsed(nanos) => nanos <= RESULT_DELIVERY_TIMEOUT_NANOS,
        Event::ServerStopped => false,
        _ => true,
    }
}

/// Whether a login runs its course in `events`: an OAuth callback is accepted at
/// `accepted`, after nothing but what is no callback; the outcome comes at `finished`; the
/// time was last looked at, at `checked`, before the browser asks for the result, at
/// `asked`; and until then it does not ask for it, the time has not gone by, and the server
/// goes on.
pub open spec fn runs_its_course<C, E>(
    result_path: Seq<char>,
    events: Seq<Event<C, E>>,
    accepted: int,
    finished: int,
    checked: int,
    asked: int,
) -> bool {
    &&& 0 <= accepted < finished < checked < asked < events.len()
    &&& forall|k: int| 0 <= k < accepted ==> keeps_awaiting_callback(#[trigger] events[k])
    &&& events[accepted] matches Event::CallbackRequest(callback) && !(callback is Invalid)
    &&& forall|k: int| accepted < k < finished ==> !(#[trigger] events[k] is Finished)
    &&& events[finished] is Finished
    &&& forall|k: int|
        finished < k < asked ==> keeps_holding_result(#[trigger] events[k], result_path)
    &&& events[checked] is Elapsed
    &&& forall|k: int|
        checked < k < asked ==> !(#[trigger] events[k] is ResultRequest) && !(events[k] is TimedOut)
    &&& events[asked] matches Event::ResultRequest(url) && url@ == result_path
}

/// What is waited for, all through a login that runs its course.
proof fn lemma_phases_of_a_course<C, E>(
    result_path: Seq<char>,
    events: Seq<Event<C, E>>,
    accepted: int,
    finished: int,
    checked: int,
    asked: int,
    k: int,
)
    requires
        runs_its_course(result_path, events, accepted, finished, checked, asked),
        0 <= k <= events.len(),
    ensures
        k <= accepted ==> phase_after(result_path, events.take(k)) == Phase::AwaitingCallback,
        accepted < k <= finished ==> phase_after(result_path, events.take(k))
            == Phase::AwaitingOutcome,
        finished < k <= asked ==> held_page(phase_after(result_path, events.take(k))) == Some(
            result_page(events[finished]->Finished_0),
        ),
        checked < k <= asked ==> phase_after(
            result_path,
            events.take(k),
        ) is AwaitingResultRequest,
        asked < k ==> phase_after(result_path, events.take(k)) == Phase::Closed,
    decreases k,
{
    if k > 0 {
        lemma_phases_of_a_course(result_path, events, accepted, finished, checked, asked, k - 1);
        lemma_next(result_path, events, k - 1);
        if k - 1 < accepted {
            assert(keeps_awaiting_callback(events[k - 1]));
        } else if finished < k - 1 < asked {
            assert(keeps_holding_result(events[k - 1], result_path));
        }
    }
}

/// The outcome of a login is shown where the browser asks for it in time, whatever else
/// comes before: the callback is told to wait, the request for the result is answered with
/// the page that shows the outcome, which is failure where the login was dropped, and every
/// other request is told that it is not one. After that the session is closed. The browser
/// asks where the page that told it to wait has it ask: at the callback's own path.
pub proof fn law_reported_page_is_shown<C, E>(
    callback_path: Seq<char>,
    events: Seq<Event<C, E>>,
    accepted: int,
    finished: int,
    checked: int,
    asked: int,
)
    requires
        runs_its_course(
            callback_path + RESULT_QUERY@,
            events,
            accepted,
            finished,
            checked,
            asked,
        ),
    ensures
        ({
            let result_path = callback_path + RESULT_QUERY@;
            let page = result_page(events[finished]->Finished_0);
            &&& step_at(result_path, events, accepted).reply == Some(CallbackPage::Pending)
            &&& step_at(result_path, events, accepted).forward is Some
            &&& step_at(result_path, events, asked).reply == Some(page)
            &&& step_at(result_path, events, asked).delivered
            &&& forall|k: int|
                0 <= k < accepted && events[k] is CallbackRequest ==> (#[trigger] step_at(
                    result_path,
                    events,
                    k,
                )).reply == Some(CallbackPage::Invalid)
            &&& forall|k: int|
                finished < k < asked && events[k] is ResultRequest && phase_after(
                    result_path,
                    events.take(k),
                ) is AwaitingResultRequest ==> (#[trigger] step_at(result_path, events, k)).reply
                    == Some(CallbackPage::Invalid)
            &&& forall|k: int|
                0 <= k < events.len() && k != accepted && k != asked && (#[trigger] step_at(
                    result_path,
                    events,
                    k,
                )).reply is Some ==> step_at(result_path, events, k).reply == Some(
                    CallbackPage::Invalid,
                )
            &&& forall|k: int|
                asked < k <= events.len() ==> phase_after(result_path, #[trigger] events.take(k))
                    == Phase::Closed
            &&& phase_after(result_path, events) == Phase::Closed
        }),
        contains_text(CallbackPage::Pending.refresh(), "url="@ + RESULT_QUERY@ + "\""@),
{
    let result_path = callback_path + RESULT_QUERY@;
    assert forall|k: int| 0 <= k < events.len() implies {
        let reply = (#[trigger] step_at(result_path, events, k)).reply;
        &&& k == accepted ==> reply == Some(CallbackPage::Pending)
        &&& k == asked ==> reply == Some(result_page(events[finished]->Finished_0))
        &&& k < accepted && events[k] is CallbackRequest ==> reply == Some(CallbackPage::Invalid)
        &&& finished < k < asked && events[k] is ResultRequest && phase_after(
            result_path,
            events.take(k),
        ) is AwaitingResultRequest ==> reply == Some(CallbackPage::Invalid)
        &&& k != accepted && k != asked && reply is Some ==> reply == Some(CallbackPage::Invalid)
    } by {
        lemma_phases_of_a_course(result_path, events, accepted, finished, checked, asked, k);
        if k < accepted {
            assert(keeps_awaiting_callback(events[k]));
        } else if finished < k < asked {
            assert(keeps_holding_result(events[k], result_path));
        }
    }
    assert forall|k: int| asked < k <= events.len() implies phase_after(
        result_path,
        #[trigger] events.take(k),
    ) == Phase::Closed by {
        lemma_phases_of_a_course(result_path, events, accepted, finished, checked, asked, k);
    }
    lemma_phases_of_a_course(result_path, events, accepted, finished, checked, asked, accepted);
    lemma_phases_of_a_course(result_path, events, accepted, finished, checked, asked, asked);
    assert(events.take(events.len() as int) == events);
    reveal_strlit("<meta http-equiv=\"refresh\" content=\"1;url=");
    reveal_strlit("\">");
    reveal_strlit("url=");
    reveal_strlit("\"");
    let refresh = CallbackPage::Pending.refresh();
    let target = "url="@ + RESULT_QUERY@ + "\""@;
    let i = "<meta http-equiv=\"refresh\" content=\"1;url="@.len() - 4;
    assert(refresh.subrange(i, i + target.len()) == target);
    assert(occurs_at(refresh, target, i));
}

/// A text stands in one that it is a part of.
proof fn lemma_contains_part(before: Seq<char>, part: Seq<char>, after: Seq<char>)
    ensures
        contains_text(before + part + after, part),
{
    let text = before + part + after;
    let n = before.len() as int;
    assert(text.subrange(n, n + part.len()) == part);
    assert(occurs_at(text, part, n));
}

/// Every page of the Syntropic brand shows the logo, and the policy that it is sent
/// under lets the browser show it.
pub proof fn law_logo_is_in_every_syntropic_page(page: CallbackPage)
    ensures
        contains_text(
            page.document_text(CallbackBrand::Syntropic),
            "data:image/png;base64,"@ + base64_text(SYNTROPIC_LOGO@),
        ),
        contains_text(page.document_text(CallbackBrand::Syntropic), "alt=\"Syntropic logo\""@),
        contains_text(CallbackBrand::Syntropic.security_policy(), "img-src data:"@),
{
    reveal_strlit("<img src=\"");
    reveal_strlit("data:image/png;base64,");
    reveal_strlit("<img src=\"data:image/png;base64,");
    reveal_strlit("\" ");
    reveal_strlit("alt=\"Syntropic logo\"");
    reveal_strlit(">\n");
    reveal_strlit("\" alt=\"Syntropic logo\">\n");
    reveal_strlit("img-src data:");
    reveal_strlit("img-src data:; ");
    reveal_strlit("; ");
    let brand = CallbackBrand::Syntropic;
    let before = DOCUMENT_START@
        + page.title() + "</title>\n"@ + page.refresh() + "\n<style>"@ + STYLE@
        + "</style>\n</head>\n<body>\n"@;
    let after = "<h1>"@ + page.title() + "</h1>\n<p>"@ + page.message()
        + "</p>\n</body>\n</html>\n"@;
    let data = base64_text(SYNTROPIC_LOGO@);
    let logo = "data:image/png;base64,"@ + data;
    let alt = "alt=\"Syntropic logo\""@;
    let text = page.document_text(brand);
    assert(text == (before + "<img src=\""@) + logo + ("\" alt=\"Syntropic logo\">\n"@ + after));
    lemma_contains_part(before + "<img src=\""@, logo, "\" alt=\"Syntropic logo\">\n"@ + after);
    let head = before + "<img src=\""@ + logo + "\" "@;
    assert(text == head + alt + (">\n"@ + after));
    lemma_contains_part(head, alt, ">\n"@ + after);
    let front = "default-src 'none'; style-src 'sha256-"@ + base64_text(
        sha256_digest(encode_utf8(STYLE@)),
    ) + "'; "@;
    let back = "; "@ + "base-uri 'none'; frame-ancestors 'none'"@;
    assert(brand.security_policy() == front + "img-src data:"@ + back);
    lemma_contains_part(front, "img-src data:"@, back);
}

/// Every page holds the shared stylesheet, and the policy that it is sent under lets the
/// browser use it.
pub proof fn law_stylesheet_is_in_every_page(page: CallbackPage, brand: CallbackBrand)
    ensures
        contains_text(page.document_text(brand), "<style>"@ + STYLE@ + "</style>"@),
        contains_text(
            brand.security_policy(),
            "style-src 'sha256-"@ + base64_text(sha256_digest(encode_utf8(STYLE@))) + "'"@,
        ),
{
    reveal_strlit("\n<style>");
    reveal_strlit("\n");
    reveal_strlit("<style>");
    reveal_strlit("</style>\n</head>\n<body>\n");
    reveal_strlit("</style>");
    reveal_strlit("\n</head>\n<body>\n");
    reveal_strlit("default-src 'none'; style-src 'sha256-");
    reveal_strlit("default-src 'none'; ");
    reveal_strlit("style-src 'sha256-");
    reveal_strlit("'; ");
    reveal_strlit("'");
    reveal_strlit("; ");
    let before = DOCUMENT_START@
        + page.title() + "</title>\n"@ + page.refresh() + "\n"@;
    let after = "\n</head>\n<body>\n"@ + brand.logo_element() + "<h1>"@ + page.title()
        + "</h1>\n<p>"@ + page.message() + "</p>\n</body>\n</html>\n"@;
    let style = "<style>"@ + STYLE@ + "</style>"@;
    assert(page.document_text(brand) == before + style + after);
    lemma_contains_part(before, style, after);
    let source = "style-src 'sha256-"@ + base64_text(sha256_digest(encode_utf8(STYLE@))) + "'"@;
    let back = "; "@ + brand.image_policy() + "base-uri 'none'; frame-ancestors 'none'"@;
    assert(brand.security_policy() == "default-src 'none'; "@ + source + back);
    lemma_contains_part("default-src 'none'; "@, source, back);
}

/// Whether the character of `s` at `k` is no space, or stands between characters other
/// than the `n` and the `c` around the space of a claim of success.
spec fn claims_nothing_at(s: Seq<char>, k: int) -> bool {
    s[k] == ' ' ==> 0 < k < s.len() - 1 && !(s[k - 1] == 'n' && s[k + 1] == 'c')
}

/// Whether no part of `s` is part of a claim of success, even next to other such texts.
spec fn claims_nothing(s: Seq<char>) -> bool {
    forall|k: int| 0 <= k < s.len() ==> #[trigger] claims_nothing_at(s, k)
}

proof fn lemma_claims_nothing_concat(a: Seq<char>, b: Seq<char>)
    requires
        claims_nothing(a),
        claims_nothing(b),
    ensures
        claims_nothing(a + b),
{
    assert forall|k: int| 0 <= k < (a + b).len() implies #[trigger] claims_nothing_at(
        a + b,
        k,
    ) by {
        if k < a.len() {
            assert(claims_nothing_at(a, k));
        } else {
            assert(claims_nothing_at(b, k - a.len()));
        }
    }
}

proof fn lemma_title_and_message_claim_nothing(page: CallbackPage)
    requires
        page != CallbackPage::Success,
    ensures
        claims_nothing(page.title()),
        claims_nothing(page.message()),
{
    reveal_strlit("Completing authentication");
    reveal_strlit("Authentication failed");
    reveal_strlit("Invalid OAuth callback");
    reveal_strlit("Please wait while Codex verifies and saves your credentials.");
    reveal_strlit("Codex could not complete authentication. Return to Codex and try again.");
    reveal_strlit("This request does not match the callback. Return to Codex to continue signing in.");
}

proof fn lemma_elements_claim_nothing(page: CallbackPage, brand: CallbackBrand)
    ensures
        claims_nothing(page.refresh()),
        claims_nothing(brand.logo_element()),
        claims_nothing(STYLE@),
{
    reveal_strlit("<meta http-equiv=\"refresh\" content=\"1;url=");
    reveal_strlit("?codex_oauth_result=1");
    reveal_strlit("\">");
    reveal_strlit("<img src=\"data:image/png;base64,");
    reveal_strlit("\" alt=\"Syntropic logo\">\n");
    lemma_style();
    lemma_base64_text(SYNTROPIC_LOGO@);
    let data = base64_text(SYNTROPIC_LOGO@);
    assert(claims_nothing(data)) by {
        assert forall|k: int| 0 <= k < data.len() implies #[trigger] claims_nothing_at(
            data,
            k,
        ) by {
            assert(is_base64_char(data[k]));
        }
    }
    lemma_claims_nothing_concat(
        "<meta http-equiv=\"refresh\" content=\"1;url="@,
        RESULT_QUERY@,
    );
    lemma_claims_nothing_concat(
        "<meta http-equiv=\"refresh\" content=\"1;url="@ + RESULT_QUERY@,
        "\">"@,
    );
    lemma_claims_nothing_concat("<img src=\"data:image/png;base64,"@, data);
    lemma_claims_nothing_concat(
        "<img src=\"data:image/png;base64,"@ + data,
        "\" alt=\"Syntropic logo\">\n"@,
    );
}

/// No page but the one of success claims that the login is complete.
pub proof fn law_only_success_claims_completion(page: CallbackPage, brand: CallbackBrand)
    ensures
        contains_text(page.document_text(brand), "Authentication complete"@) <==> page
            == CallbackPage::Success,
{
    let text = page.document_text(brand);
    let claim = "Authentication complete"@;
    if page == CallbackPage::Success {
        let before = DOCUMENT_START@;
        let after = "</title>\n"@ + page.refresh() + "\n<style>"@ + STYLE@
            + "</style>\n</head>\n<body>\n"@ + brand.logo_element() + "<h1>"@ + page.title()
            + "</h1>\n<p>"@ + page.message() + "</p>\n</body>\n</html>\n"@;
        assert(text == before + claim + after);
        lemma_contains_part(before, claim, after);
    } else {
        lemma_page_claims_nothing(page, brand);
        reveal_strlit("Authentication complete");
        assert forall|i: int| !occurs_at(text, claim, i) by {
            if occurs_at(text, claim, i) {
                let part = text.subrange(i, i + claim.len());
                assert(part[13] == text[i + 13] && part[14] == text[i + 14] && part[15] == text[i
                    + 15]);
                assert(claims_nothing_at(text, i + 14));
            }
        }
    }
}

proof fn lemma_page_claims_nothing(page: CallbackPage, brand: CallbackBrand)
    requires
        page != CallbackPage::Success,
    ensures
        claims_nothing(page.document_text(brand)),
{
    reveal_strlit(
        "<!doctype html>\n<html lang=\"en\">\n<head>\n<meta charset=\"utf-8\">\n<meta name=\"viewport\" content=\"width=device-width, initial-scale=1\">\n<title>",
    );
    reveal_strlit("</title>\n");
    reveal_strlit("\n<style>");
    reveal_strlit("</style>\n</head>\n<body>\n");
    reveal_strlit("<h1>");
    reveal_strlit("</h1>\n<p>");
    reveal_strlit("</p>\n</body>\n</html>\n");
    lemma_title_and_message_claim_nothing(page);
    lemma_elements_claim_nothing(page, brand);
    let t1 = DOCUMENT_START@;
    let t2 = t1 + page.title();
    let t3 = t2 + "</title>\n"@;
    let t4 = t3 + page.refresh();
    let t5 = t4 + "\n<style>"@;
    let t6 = t5 + STYLE@;
    let t7 = t6 + "</style>\n</head>\n<body>\n"@;
    let t8 = t7 + brand.logo_element();
    let t9 = t8 + "<h1>"@;
    let t10 = t9 + page.title();
    let t11 = t10 + "</h1>\n<p>"@;
    let t12 = t11 + page.message();
    lemma_claims_nothing_concat(t1, page.title());
    lemma_claims_nothing_concat(t2, "</title>\n"@);
    lemma_claims_nothing_concat(t3, page.refresh());
    lemma_claims_nothing_concat(t4, "\n<style>"@);
    lemma_claims_nothing_concat(t5, STYLE@);
    lemma_claims_nothing_concat(t6, "</style>\n</head>\n<body>\n"@);
    lemma_claims_nothing_concat(t7, brand.logo_element());
    lemma_claims_nothing_concat(t8, "<h1>"@);
    lemma_claims_nothing_concat(t9, page.title());
    lemma_claims_nothing_concat(t10, "</h1>\n<p>"@);
    lemma_claims_nothing_concat(t11, page.message());
    lemma_claims_nothing_concat(t12, "</p>\n</body>\n</html>\n"@);
}

} // verus!
