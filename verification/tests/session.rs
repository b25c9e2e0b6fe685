use oauth_callback_page::{
    html, page_for_result, CallbackBrand, CallbackOutcome, CallbackPage, CallbackResult,
    CallbackSession, Event, Phase, RESULT_DELIVERY_TIMEOUT_SECS,
};

type Step = oauth_callback_page::Step<String, String>;

const TIMEOUT: u128 = 5_000_000_000;

const INVALID: &str = "<!doctype html>\n<html lang=\"en\">\n<head>\n<meta charset=\"utf-8\">\n\
     <meta name=\"viewport\" content=\"width=device-width, initial-scale=1\">\n\
     <title>Invalid OAuth callback</title>\n\n\
     <style>[shared callback stylesheet]</style>\n\
     </head>\n<body>\n\
     <h1>Invalid OAuth callback</h1>\n\
     <p>This request does not match the callback. Return to Codex to continue signing in.</p>\n\
     </body>\n</html>\n";

const PENDING: &str = "<!doctype html>\n<html lang=\"en\">\n<head>\n<meta charset=\"utf-8\">\n\
     <meta name=\"viewport\" content=\"width=device-width, initial-scale=1\">\n\
     <title>Completing authentication</title>\n\
     <meta http-equiv=\"refresh\" content=\"1;url=?codex_oauth_result=1\">\n\
     <style>[shared callback stylesheet]</style>\n\
     </head>\n<body>\n\
     <h1>Completing authentication</h1>\n\
     <p>Please wait while Codex verifies and saves your credentials.</p>\n\
     </body>\n</html>\n";

const SUCCESS: &str = "<!doctype html>\n<html lang=\"en\">\n<head>\n<meta charset=\"utf-8\">\n\
     <meta name=\"viewport\" content=\"width=device-width, initial-scale=1\">\n\
     <title>Authentication complete</title>\n\n\
     <style>[shared callback stylesheet]</style>\n\
     </head>\n<body>\n\
     <h1>Authentication complete</h1>\n\
     <p>Your credentials have been saved. You may close this window.</p>\n\
     </body>\n</html>\n";

const FAILURE: &str = "<!doctype html>\n<html lang=\"en\">\n<head>\n<meta charset=\"utf-8\">\n\
     <meta name=\"viewport\" content=\"width=device-width, initial-scale=1\">\n\
     <title>Authentication failed</title>\n\n\
     <style>[shared callback stylesheet]</style>\n\
     </head>\n<body>\n\
     <h1>Authentication failed</h1>\n\
     <p>Codex could not complete authentication. Return to Codex and try again.</p>\n\
     </body>\n</html>\n";

fn code() -> Event<String, String> {
    Event::CallbackRequest(CallbackOutcome::Success("synthetic-code".to_string()))
}

fn provider_error(text: &str) -> Event<String, String> {
    Event::CallbackRequest(CallbackOutcome::Error(text.to_string()))
}

fn step(session: &mut CallbackSession, event: Event<String, String>) -> Step {
    session.step(event)
}

fn ask(session: &mut CallbackSession, url: &str) -> Step {
    session.step(Event::ResultRequest(url.to_string()))
}

fn quiet(step: &Step) -> bool {
    step.reply.is_none() && step.forward.is_none() && !step.delivered
}

fn wire(page: CallbackPage) -> String {
    let mut bytes = Vec::new();
    page.response(CallbackBrand::Codex)
        .raw_print(&mut bytes, tiny_http::HTTPVersion(1, 1), &[], false, None)
        .unwrap();
    String::from_utf8(bytes).unwrap()
}

#[test]
fn callback_renders_html_without_claiming_success_before_exchange() {
    let mut session = CallbackSession::new("/callback/server");
    let invalid = step(
        &mut session,
        Event::CallbackRequest(CallbackOutcome::Invalid),
    );
    let invalid = wire(invalid.reply.unwrap());
    assert!(invalid.starts_with("HTTP/1.1 400"));
    assert_eq!(html(&invalid), INVALID);
    assert_eq!(session.phase(), Phase::AwaitingCallback);

    let pending = step(
        &mut session,
        Event::CallbackRequest(CallbackOutcome::Success(
            "code=synthetic-code&state=synthetic-state".to_string(),
        )),
    );
    assert!(matches!(pending.forward, Some(CallbackResult::Success(_))));
    let response = wire(pending.reply.unwrap());
    assert_eq!(html(&response), PENDING);
    assert!(!response.contains("Authentication complete"));
    assert!(!response.contains("synthetic-code"));
    assert!(!response.contains("synthetic-state"));

    let finished: Result<(), String> = Ok(());
    step(
        &mut session,
        Event::Finished(Some(page_for_result(&finished))),
    );
    step(&mut session, Event::Elapsed(0));
    let result = ask(&mut session, "/callback/server?codex_oauth_result=1");
    let response = wire(result.reply.unwrap());
    assert!(response.starts_with("HTTP/1.1 200"));
    assert_eq!(html(&response), SUCCESS);
}

#[test]
fn callback_failure_and_cancellation_do_not_render_provider_input() {
    for cancelled in [false, true] {
        let mut session = CallbackSession::new("/callback");
        let pending = step(
            &mut session,
            provider_error(
                "error=secret&error_description=%3Cscript%3Ealert%281%29%3C%2Fscript%3E",
            ),
        );
        assert!(matches!(pending.forward, Some(CallbackResult::Error(_))));
        assert!(!html(&wire(pending.reply.unwrap())).contains("secret"));
        let failure: Result<(), &str> = Err("secret <script>alert(1)</script>");
        let outcome = if cancelled {
            None
        } else {
            Some(page_for_result(&failure))
        };
        step(&mut session, Event::Finished(outcome));
        step(&mut session, Event::Elapsed(7));
        let result = ask(&mut session, "/callback?codex_oauth_result=1");
        assert!(result.delivered);
        let response = wire(result.reply.unwrap());
        assert!(response.starts_with("HTTP/1.1 400"));
        assert_eq!(html(&response), FAILURE);
        assert!(!response.contains("secret"));
        assert!(!response.contains("<script>"));
    }
}

#[test]
fn callback_is_handed_on_once_as_it_came() {
    let mut session = CallbackSession::new("/callback");
    let first = step(&mut session, code());
    assert!(matches!(
        first.forward,
        Some(CallbackResult::Success(code)) if code == "synthetic-code"
    ));
    assert!(quiet(&step(&mut session, code())));
    assert_eq!(session.phase(), Phase::AwaitingOutcome);

    let mut session = CallbackSession::new("/callback");
    let first = step(&mut session, provider_error("denied"));
    assert!(matches!(
        first.forward,
        Some(CallbackResult::Error(error)) if error == "denied"
    ));
}

#[test]
fn provider_text_has_no_part_in_what_is_shown() {
    let mut a = CallbackSession::new("/callback");
    let mut b = CallbackSession::new("/callback");
    let from_a = step(&mut a, code());
    let from_b = step(&mut b, provider_error("anything"));
    assert_eq!(from_a.reply, from_b.reply);
    assert_eq!(a.phase(), b.phase());
}

#[test]
fn late_callbacks_have_no_part_in_what_is_shown() {
    let mut shown = Vec::new();
    for late in [
        "/callback?code=synthetic-code&state=synthetic-state",
        "/callback?error=secret",
        "/other",
    ] {
        let mut session = CallbackSession::new("/callback");
        step(&mut session, code());
        step(&mut session, Event::Finished(Some(CallbackPage::Success)));
        step(&mut session, Event::Elapsed(1));
        let answer = ask(&mut session, late);
        shown.push((answer.reply, answer.delivered, session.phase()));
    }
    assert_eq!(shown[0].0, Some(CallbackPage::Invalid));
    assert_eq!(shown[0], shown[1]);
    assert_eq!(shown[0], shown[2]);
}

#[test]
fn outcome_is_shown_whatever_comes_before() {
    for (outcome, page) in [
        (Some(CallbackPage::Success), CallbackPage::Success),
        (Some(CallbackPage::Failure), CallbackPage::Failure),
        (None, CallbackPage::Failure),
    ] {
        let mut session = CallbackSession::new("/callback");
        for _ in 0..3 {
            let answer = step(
                &mut session,
                Event::CallbackRequest(CallbackOutcome::Invalid),
            );
            assert_eq!(answer.reply, Some(CallbackPage::Invalid));
        }
        assert_eq!(
            step(&mut session, code()).reply,
            Some(CallbackPage::Pending)
        );
        assert!(quiet(&step(&mut session, Event::TimedOut)));
        step(&mut session, Event::Finished(outcome));
        assert!(quiet(&step(
            &mut session,
            Event::Finished(Some(CallbackPage::Success))
        )));
        step(&mut session, Event::Elapsed(10));
        assert_eq!(
            ask(&mut session, "/callback?error=secret").reply,
            Some(CallbackPage::Invalid)
        );
        step(&mut session, Event::Elapsed(20));
        assert!(quiet(&step(&mut session, Event::TimedOut)));
        step(&mut session, Event::Elapsed(TIMEOUT));
        let answer = ask(&mut session, "/callback?codex_oauth_result=1");
        assert_eq!(answer.reply, Some(page));
        assert!(answer.delivered);
        assert_eq!(session.phase(), Phase::Closed);
    }
}

#[test]
fn dropped_login_is_a_failure() {
    let mut session = CallbackSession::new("/callback");
    step(&mut session, code());
    step(&mut session, Event::Finished(None));
    assert_eq!(
        session.phase(),
        Phase::CheckingTime {
            page: CallbackPage::Failure
        }
    );
}

#[test]
fn other_addresses_do_not_get_the_result() {
    let mut session = CallbackSession::new("/callback");
    step(&mut session, code());
    step(&mut session, Event::Finished(Some(CallbackPage::Success)));
    for url in [
        "/callback",
        "/callback?codex_oauth_result=2",
        "/callback?codex_oauth_result=1&x",
        "/other?codex_oauth_result=1",
        "",
    ] {
        step(&mut session, Event::Elapsed(1));
        let answer = ask(&mut session, url);
        assert_eq!(answer.reply, Some(CallbackPage::Invalid));
        assert!(!answer.delivered);
    }
    step(&mut session, Event::Elapsed(2));
    let answer = ask(&mut session, "/callback?codex_oauth_result=1");
    assert_eq!(answer.reply, Some(CallbackPage::Success));
    assert!(answer.delivered);
    assert_eq!(session.phase(), Phase::Closed);
}

#[test]
fn result_waits_until_the_deadline() {
    assert_eq!(RESULT_DELIVERY_TIMEOUT_SECS, 5);
    for (elapsed, left) in [(0, 5_000_000_000), (1, 4_999_999_999), (TIMEOUT, 0)] {
        let mut session = CallbackSession::new("/callback");
        step(&mut session, code());
        step(&mut session, Event::Finished(Some(CallbackPage::Success)));
        assert!(quiet(&step(&mut session, Event::Elapsed(elapsed))));
        assert_eq!(
            session.phase(),
            Phase::AwaitingResultRequest {
                page: CallbackPage::Success,
                timeout_nanos: left
            }
        );
        assert!(quiet(&step(&mut session, Event::TimedOut)));
        let late = step(&mut session, Event::Elapsed(TIMEOUT + 1));
        assert!(late.delivered && late.reply.is_none());
        assert_eq!(session.phase(), Phase::Closed);
    }
    let mut session = CallbackSession::new("/callback");
    step(&mut session, code());
    step(&mut session, Event::Finished(None));
    assert!(step(&mut session, Event::Elapsed(u128::MAX)).delivered);
}

#[test]
fn stopped_server_ends_the_login() {
    let mut session = CallbackSession::new("/callback");
    assert!(quiet(&step(&mut session, Event::ServerStopped)));
    assert_eq!(session.phase(), Phase::Closed);

    let mut session = CallbackSession::new("/callback");
    step(&mut session, code());
    step(&mut session, Event::Finished(Some(CallbackPage::Success)));
    step(&mut session, Event::Elapsed(3));
    let stopped = step(&mut session, Event::ServerStopped);
    assert!(stopped.delivered && stopped.reply.is_none());
    assert_eq!(session.phase(), Phase::Closed);
}

#[test]
fn nothing_is_done_after_delivery() {
    let mut session = CallbackSession::new("/callback");
    step(&mut session, code());
    step(&mut session, Event::Finished(Some(CallbackPage::Success)));
    step(&mut session, Event::Elapsed(0));
    ask(&mut session, "/callback?codex_oauth_result=1");
    for event in [
        code(),
        Event::Finished(Some(CallbackPage::Success)),
        Event::Elapsed(0),
        Event::ResultRequest("/callback?codex_oauth_result=1".to_string()),
        Event::TimedOut,
        Event::ServerStopped,
    ] {
        assert!(quiet(&step(&mut session, event)));
        assert_eq!(session.phase(), Phase::Closed);
    }
}

#[test]
fn login_result_is_shown_by_its_page() {
    let ok: Result<(), String> = Ok(());
    let err: Result<(), String> = Err("failed".to_string());
    assert_eq!(page_for_result(&ok), CallbackPage::Success);
    assert_eq!(page_for_result(&err), CallbackPage::Failure);
}

#[test]
fn login_is_told_whenever_the_server_is_done_with_it() {
    for last in [
        Event::ResultRequest("/callback?codex_oauth_result=1".to_string()),
        Event::ServerStopped,
    ] {
        let mut session = CallbackSession::new("/callback");
        step(&mut session, code());
        step(&mut session, Event::Finished(None));
        step(&mut session, Event::Elapsed(0));
        let told = step(&mut session, last);
        assert!(told.delivered);
        assert_eq!(session.phase(), Phase::Closed);
    }
}
