use base64::engine::general_purpose::STANDARD;
use base64::Engine;
use oauth_callback_page::page::RESULT_QUERY;
use oauth_callback_page::{
    html, is_page, request_text, CallbackBrand, CallbackPage, STYLE, SYNTROPIC_LOGO,
};
use sha2::Digest;
use std::io::Cursor;
use std::io::Read;

const PAGES: [CallbackPage; 4] = [
    CallbackPage::Pending,
    CallbackPage::Success,
    CallbackPage::Failure,
    CallbackPage::Invalid,
];

const BRANDS: [CallbackBrand; 2] = [CallbackBrand::Codex, CallbackBrand::Syntropic];

fn body(response: tiny_http::Response<Cursor<Vec<u8>>>) -> String {
    let mut body = String::new();
    response.into_reader().read_to_string(&mut body).unwrap();
    body
}

fn headers(response: &tiny_http::Response<Cursor<Vec<u8>>>) -> Vec<(String, String)> {
    response
        .headers()
        .iter()
        .map(|header| (header.field.to_string(), header.value.to_string()))
        .collect()
}

fn wire(response: tiny_http::Response<Cursor<Vec<u8>>>) -> String {
    let mut bytes = Vec::new();
    response
        .raw_print(&mut bytes, tiny_http::HTTPVersion(1, 1), &[], false, None)
        .unwrap();
    String::from_utf8(bytes).unwrap()
}

#[test]
fn syntropic_branding_is_scoped_and_embedded_in_every_status() {
    assert_eq!(
        CallbackBrand::for_server_url("https://platform.syntropic.com/mcp"),
        CallbackBrand::Syntropic
    );
    assert_eq!(
        CallbackBrand::for_server_url("https://platform.syntropic.com.example/mcp"),
        CallbackBrand::Codex
    );
    assert_eq!(
        CallbackBrand::for_server_url("https://other.example/mcp"),
        CallbackBrand::Codex
    );
    let logo = format!("data:image/png;base64,{}", STANDARD.encode(SYNTROPIC_LOGO));
    let style_hash = STANDARD.encode(sha2::Sha256::digest(STYLE.as_bytes()));
    let mut rendered = Vec::new();
    for (name, page) in [
        ("pending", CallbackPage::Pending),
        ("success", CallbackPage::Success),
        ("failure", CallbackPage::Failure),
        ("invalid", CallbackPage::Invalid),
    ] {
        let response = page.response(CallbackBrand::Syntropic);
        let csp = response
            .headers()
            .iter()
            .find(|header| header.field.equiv("Content-Security-Policy"))
            .unwrap()
            .value
            .as_str();
        assert!(csp.contains(&format!("style-src 'sha256-{style_hash}'")));
        assert!(csp.contains("img-src data:"));
        let mut body = String::new();
        response.into_reader().read_to_string(&mut body).unwrap();
        assert!(body.contains(&logo));
        assert!(body.contains("alt=\"Syntropic logo\""));
        let body = body
            .replace(STYLE, "[shared callback stylesheet]")
            .replace(&logo, "[embedded Syntropic logo]");
        rendered.push(format!("--- {name} ---\n{body}"));
    }
    assert_eq!(
        rendered.join("\n"),
        "--- pending ---\n\
         <!doctype html>\n<html lang=\"en\">\n<head>\n<meta charset=\"utf-8\">\n\
         <meta name=\"viewport\" content=\"width=device-width, initial-scale=1\">\n\
         <title>Completing authentication</title>\n\
         <meta http-equiv=\"refresh\" content=\"1;url=?codex_oauth_result=1\">\n\
         <style>[shared callback stylesheet]</style>\n\
         </head>\n<body>\n\
         <img src=\"[embedded Syntropic logo]\" alt=\"Syntropic logo\">\n\
         <h1>Completing authentication</h1>\n\
         <p>Please wait while Codex verifies and saves your credentials.</p>\n\
         </body>\n</html>\n\n\
         --- success ---\n\
         <!doctype html>\n<html lang=\"en\">\n<head>\n<meta charset=\"utf-8\">\n\
         <meta name=\"viewport\" content=\"width=device-width, initial-scale=1\">\n\
         <title>Authentication complete</title>\n\n\
         <style>[shared callback stylesheet]</style>\n\
         </head>\n<body>\n\
         <img src=\"[embedded Syntropic logo]\" alt=\"Syntropic logo\">\n\
         <h1>Authentication complete</h1>\n\
         <p>Your credentials have been saved. You may close this window.</p>\n\
         </body>\n</html>\n\n\
         --- failure ---\n\
         <!doctype html>\n<html lang=\"en\">\n<head>\n<meta charset=\"utf-8\">\n\
         <meta name=\"viewport\" content=\"width=device-width, initial-scale=1\">\n\
         <title>Authentication failed</title>\n\n\
         <style>[shared callback stylesheet]</style>\n\
         </head>\n<body>\n\
         <img src=\"[embedded Syntropic logo]\" alt=\"Syntropic logo\">\n\
         <h1>Authentication failed</h1>\n\
         <p>Codex could not complete authentication. Return to Codex and try again.</p>\n\
         </body>\n</html>\n\n\
         --- invalid ---\n\
         <!doctype html>\n<html lang=\"en\">\n<head>\n<meta charset=\"utf-8\">\n\
         <meta name=\"viewport\" content=\"width=device-width, initial-scale=1\">\n\
         <title>Invalid OAuth callback</title>\n\n\
         <style>[shared callback stylesheet]</style>\n\
         </head>\n<body>\n\
         <img src=\"[embedded Syntropic logo]\" alt=\"Syntropic logo\">\n\
         <h1>Invalid OAuth callback</h1>\n\
         <p>This request does not match the callback. Return to Codex to continue signing in.</p>\n\
         </body>\n</html>\n"
    );
}

#[test]
fn brand_follows_the_host_of_the_url() {
    for url in [
        "https://PLATFORM.syntropic.com/mcp",
        "https://user@platform.syntropic.com:8443/",
        "https://platform.syntropic.com",
    ] {
        assert_eq!(CallbackBrand::for_server_url(url), CallbackBrand::Syntropic);
    }
    for url in [
        "https://evil.platform.syntropic.com/mcp",
        "https://other.example/platform.syntropic.com",
        "https://platform.syntropic.com@other.example/",
        "platform.syntropic.com",
        "data:text/plain,platform.syntropic.com",
        "",
    ] {
        assert_eq!(CallbackBrand::for_server_url(url), CallbackBrand::Codex);
    }
}

#[test]
fn brand_of_a_host() {
    assert_eq!(
        CallbackBrand::for_host(Some("platform.syntropic.com".to_string())),
        CallbackBrand::Syntropic
    );
    assert_eq!(
        CallbackBrand::for_host(Some("syntropic.com".to_string())),
        CallbackBrand::Codex
    );
    assert_eq!(CallbackBrand::for_host(None), CallbackBrand::Codex);
}

#[test]
fn pending_page_is_exact() {
    let response = CallbackPage::Pending.response(CallbackBrand::Codex);
    assert_eq!(response.status_code().0, 200);
    let expected = "<!doctype html>\n<html lang=\"en\">\n<head>\n<meta charset=\"utf-8\">\n\
         <meta name=\"viewport\" content=\"width=device-width, initial-scale=1\">\n\
         <title>Completing authentication</title>\n\
         <meta http-equiv=\"refresh\" content=\"1;url=?codex_oauth_result=1\">\n\
         <style>[shared callback stylesheet]</style>\n</head>\n<body>\n\
         <h1>Completing authentication</h1>\n\
         <p>Please wait while Codex verifies and saves your credentials.</p>\n</body>\n</html>\n";
    assert_eq!(
        body(response).replace(STYLE, "[shared callback stylesheet]"),
        expected
    );
    assert_eq!(
        html(&wire(CallbackPage::Pending.response(CallbackBrand::Codex))),
        expected
    );
}

#[test]
fn status_titles_and_messages() {
    for (page, status, title, message) in [
        (
            CallbackPage::Pending,
            200,
            "Completing authentication",
            "Please wait while Codex verifies and saves your credentials.",
        ),
        (
            CallbackPage::Success,
            200,
            "Authentication complete",
            "Your credentials have been saved. You may close this window.",
        ),
        (
            CallbackPage::Failure,
            400,
            "Authentication failed",
            "Codex could not complete authentication. Return to Codex and try again.",
        ),
        (
            CallbackPage::Invalid,
            400,
            "Invalid OAuth callback",
            "This request does not match the callback. Return to Codex to continue signing in.",
        ),
    ] {
        for brand in BRANDS {
            let response = page.response(brand);
            assert_eq!(response.status_code().0, status);
            assert_eq!(response.data_length(), Some(page.document(brand).len()));
            assert_eq!(response.chunked_threshold(), 32768);
            let text = body(response);
            assert_eq!(text, page.document(brand));
            assert!(text.contains(&format!("<title>{title}</title>")));
            assert!(text.contains(&format!("<h1>{title}</h1>\n<p>{message}</p>")));
        }
    }
}

#[test]
fn headers_are_the_five_of_a_page_in_order() {
    let hash = STANDARD.encode(sha2::Sha256::digest(STYLE.as_bytes()));
    for (brand, images) in [
        (CallbackBrand::Codex, ""),
        (CallbackBrand::Syntropic, "img-src data:; "),
    ] {
        let policy = format!(
            "default-src 'none'; style-src 'sha256-{hash}'; {images}base-uri 'none'; \
             frame-ancestors 'none'"
        );
        assert_eq!(brand.policy(), policy);
        for page in PAGES {
            let expected: Vec<(String, String)> = [
                ("Content-Type", "text/html; charset=utf-8"),
                ("Cache-Control", "no-store"),
                ("Referrer-Policy", "no-referrer"),
                ("X-Content-Type-Options", "nosniff"),
                ("Content-Security-Policy", policy.as_str()),
            ]
            .iter()
            .map(|(name, value)| (name.to_string(), value.to_string()))
            .collect();
            assert_eq!(headers(&page.response(brand)), expected);
        }
    }
}

#[test]
fn only_success_claims_completion() {
    for brand in BRANDS {
        for page in PAGES {
            assert_eq!(
                page.document(brand).contains("Authentication complete"),
                page == CallbackPage::Success
            );
        }
    }
}

#[test]
fn stylesheet_is_in_every_page_and_is_left_out_when_read_back() {
    for brand in BRANDS {
        for page in PAGES {
            let text = page.document(brand);
            assert_eq!(text.matches(STYLE).count(), 1);
            assert!(text.contains(&format!("<style>{STYLE}</style>")));
            let read_back = html(&wire(page.response(brand)));
            assert_eq!(
                read_back,
                text.replace(STYLE, "[shared callback stylesheet]")
            );
            assert!(!read_back.contains(STYLE));
        }
    }
}

#[test]
fn logo_is_in_every_syntropic_page_alone() {
    let logo = STANDARD.encode(SYNTROPIC_LOGO);
    for page in PAGES {
        assert!(page.document(CallbackBrand::Syntropic).contains(&logo));
        assert!(!page.document(CallbackBrand::Codex).contains("<img"));
    }
}

#[test]
fn pending_page_alone_refreshes_to_the_result() {
    let refresh = format!("content=\"1;url={RESULT_QUERY}\"");
    for page in PAGES {
        assert_eq!(
            page.document(CallbackBrand::Codex).contains(&refresh),
            page == CallbackPage::Pending
        );
    }
}

#[test]
fn html_reads_the_body_after_the_first_blank_line() {
    let head = "HTTP/1.1 200 OK\r\nCONTENT-TYPE: Text/HTML; charset=utf-8\r\n\
                Cache-Control: no-store\r\nReferrer-Policy: no-referrer";
    let response = format!("{head}\r\n\r\nfirst\r\n\r\nsecond");
    assert!(is_page(&response));
    assert_eq!(html(&response), "first\r\n\r\nsecond");
    let response = format!("{head}\r\n\r\n{STYLE}\u{e9}{STYLE}{STYLE}*");
    assert_eq!(
        html(&response),
        "[shared callback stylesheet]\u{e9}[shared callback stylesheet][shared callback stylesheet]*"
    );
    assert_eq!(html(&format!("{head}\r\n\r\n")), "");
}

#[test]
fn a_page_is_known_by_its_headers() {
    for page in PAGES {
        assert!(is_page(&wire(page.response(CallbackBrand::Codex))));
    }
    assert!(!is_page(""));
    assert!(!is_page("HTTP/1.1 200 OK\r\n\r\nbody"));
    let page = wire(CallbackPage::Success.response(CallbackBrand::Codex));
    assert!(!is_page(&page.replace("no-store", "no-cache")));
    assert!(!is_page(&page.replace("no-referrer", "origin")));
    assert!(!is_page(&page.replace("text/html", "text/plain")));
    assert!(!is_page(&page.replace("\r\n\r\n", "\n\n")));
}

#[test]
fn stylesheet_hash_and_logo_are_exact() {
    let policy = CallbackBrand::Codex.policy();
    assert!(policy.contains("'sha256-O0A4JbiTmRQ3CPR1U8kT7gPf2owqJE/x0X6Ql0dfAKc='"));
    let text = CallbackPage::Success.document(CallbackBrand::Syntropic);
    assert!(text.contains(
        "<img src=\"data:image/png;base64,\
         iVBORw0KGgoAAAANSUhEUgAAABAAAAAQAQAAAAA3iMLMAAAAMUlEQVR42hXKMQ0AIAwAwUtIGEESVpBQiUhCQAfK+n/mtVIMu9sE65ipJYP+e90yJXkHEwoqYjjEuwAAAABJRU5ErkJggg==\" \
         alt=\"Syntropic logo\">"
    ));
}

#[test]
fn request_names_its_path_and_its_host() {
    assert_eq!(
        request_text(
            "/callback/server?code=synthetic-code&state=synthetic-state",
            "127.0.0.1:1455"
        ),
        "GET /callback/server?code=synthetic-code&state=synthetic-state HTTP/1.1\r\n\
         Host: 127.0.0.1:1455\r\nConnection: close\r\n\r\n"
    );
    assert_eq!(
        request_text("", ""),
        "GET  HTTP/1.1\r\nHost: \r\nConnection: close\r\n\r\n"
    );
}
