//! The pages that the browser is shown during a login.

use std::io::Cursor;
use tiny_http::Response;
use vstd::prelude::*;
use vstd::string::*;
use vstd::utf8::*;

use crate::brand::{CallbackBrand, SYNTROPIC_LOGO};
use crate::encoding::{
    base64_text, encode_base64, lemma_base64_text, sha256, sha256_digest,
};
use crate::http::{
    add_header, first_content_type, is_content_length, is_content_type, is_reserved_header,
    response_body, response_chunk_threshold, response_headers, response_length, response_status,
    text_response, with_header, with_status,
};
use crate::text::{ascii_lower_text, equal_ignoring_case};

verus! {

/// The stylesheet that all pages share.
pub const STYLE: &'static str = "*{box-sizing:border-box}body{max-width:36rem;margin:auto;padding:4rem;font-family:system-ui,sans-serif;line-height:1.5;text-align:center}img{width:4rem;height:4rem}h1{font-size:1.5rem}";

/// The stylesheet is ASCII without spaces, and it is known by its first character, which
/// it holds once.
pub proof fn lemma_style()
    ensures
        is_ascii_chars(STYLE@),
        0 < STYLE@.len() < 1000,
        encode_utf8(STYLE@).len() == STYLE@.len(),
        STYLE@[0] == '*',
        forall|i: int| 0 < i < STYLE@.len() ==> #[trigger] STYLE@[i] != '*',
        forall|i: int| 0 <= i < STYLE@.len() ==> #[trigger] STYLE@[i] != ' ',
{
    reveal_strlit("*{box-sizing:border-box}body{max-width:36rem;margin:auto;padding:4rem;font-family:system-ui,sans-serif;line-height:1.5;text-align:center}img{width:4rem;height:4rem}h1{font-size:1.5rem}");
    is_ascii_chars_encode_utf8(STYLE@);
}

/// What every page starts with, up to its title.
pub const DOCUMENT_START: &'static str = "<!doctype html>\n<html lang=\"en\">\n<head>\n<meta charset=\"utf-8\">\n<meta name=\"viewport\" content=\"width=device-width, initial-scale=1\">\n<title>";

/// What a page's address ends in where the browser asks for the result of the login.
pub const RESULT_QUERY: &'static str = "?codex_oauth_result=1";

/// A page that the browser is shown.
#[derive(Clone, Copy, Debug, PartialEq, Eq, Structural)]
pub enum CallbackPage {
    /// The callback has arrived, and the login goes on.
    Pending,
    /// The credentials have been saved.
    Success,
    /// The login has failed, or was given up.
    Failure,
    /// The request is not one that the login is waiting for.
    Invalid,
}

impl CallbackPage {
    /// The title of the page.
    pub open spec fn title(self) -> Seq<char> {
        match self {
            CallbackPage::Pending => "Completing authentication"@,
            CallbackPage::Success => "Authentication complete"@,
            CallbackPage::Failure => "Authentication failed"@,
            CallbackPage::Invalid => "Invalid OAuth callback"@,
        }
    }

    /// What the page tells the user.
    pub open spec fn message(self) -> Seq<char> {
        match self {
            CallbackPage::Pending => "Please wait while Codex verifies and saves your credentials."@,
            CallbackPage::Success => "Your credentials have been saved. You may close this window."@,
            CallbackPage::Failure => "Codex could not complete authentication. Return to Codex and try again."@,
            CallbackPage::Invalid => "This request does not match the callback. Return to Codex to continue signing in."@,
        }
    }

    /// The element by which the page has the browser ask for the result of the login:
    /// after one second, at the page's own path.
    pub open spec fn refresh(self) -> Seq<char> {
        match self {
            CallbackPage::Pending => "<meta http-equiv=\"refresh\" content=\"1;url="@ + RESULT_QUERY@
                + "\">"@,
            _ => Seq::empty(),
        }
    }

    /// The status code under which the page is sent.
    pub open spec fn status(self) -> u16 {
        match self {
            CallbackPage::Pending | CallbackPage::Success => 200,
            CallbackPage::Failure | CallbackPage::Invalid => 400,
        }
    }

    /// The text of the page, with `style` as its stylesheet.
    pub open spec fn document_in(self, brand: CallbackBrand, style: Seq<char>) -> Seq<char> {
        DOCUMENT_START@
            + self.title() + "</title>\n"@ + self.refresh() + "\n<style>"@ + style
            + "</style>\n</head>\n<body>\n"@ + brand.logo_element() + "<h1>"@ + self.title()
            + "</h1>\n<p>"@ + self.message() + "</p>\n</body>\n</html>\n"@
    }

    /// The text of the page.
    pub open spec fn document_text(self, brand: CallbackBrand) -> Seq<char> {
        self.document_in(brand, STYLE@)
    }

    /// What differs between the pages: title, message, refresh element and status.
    fn parts(self) -> (parts: (&'static str, &'static str, &'static str, u16))
        ensures
            parts.0@ == self.title(),
            parts.1@ == self.message(),
            parts.2@ == self.refresh(),
            parts.3 == self.status(),
    {
        proof {
            reveal_strlit("");
            reveal_strlit("<meta http-equiv=\"refresh\" content=\"1;url=");
            reveal_strlit("?codex_oauth_result=1");
            reveal_strlit("\">");
            reveal_strlit("<meta http-equiv=\"refresh\" content=\"1;url=?codex_oauth_result=1\">");
            assert("<meta http-equiv=\"refresh\" content=\"1;url=?codex_oauth_result=1\">"@
                == CallbackPage::Pending.refresh());
            assert(""@ == Seq::<char>::empty());
        }
        match self {
            CallbackPage::Pending => (
                "Completing authentication",
                "Please wait while Codex verifies and saves your credentials.",
                "<meta http-equiv=\"refresh\" content=\"1;url=?codex_oauth_result=1\">",
                200,
            ),
            CallbackPage::Success => (
                "Authentication complete",
                "Your credentials have been saved. You may close this window.",
                "",
                200,
            ),
            CallbackPage::Failure => (
                "Authentication failed",
                "Codex could not complete authentication. Return to Codex and try again.",
                "",
                400,
            ),
            CallbackPage::Invalid => (
                "Invalid OAuth callback",
                "This request does not match the callback. Return to Codex to continue signing in.",
                "",
                400,
            ),
        }
    }

    /// The text of the page.
    pub fn document(self, brand: CallbackBrand) -> (text: String)
        ensures
            text@ == self.document_text(brand),
    {
        let (title, message, refresh, _) = self.parts();
        let logo = brand.logo();
        let mut text = String::new();
        text.append(DOCUMENT_START);
        text.append(title);
        text.append("</title>\n");
        text.append(refresh);
        text.append("\n<style>");
        text.append(STYLE);
        text.append("</style>\n</head>\n<body>\n");
        text.append(logo.as_str());
        text.append("<h1>");
        text.append(title);
        text.append("</h1>\n<p>");
        text.append(message);
        text.append("</p>\n</body>\n</html>\n");
        text
    }
}

impl CallbackBrand {
    /// The element that shows the brand's logo.
    pub open spec fn logo_element(self) -> Seq<char> {
        match self {
            CallbackBrand::Codex => Seq::empty(),
            CallbackBrand::Syntropic => "<img src=\"data:image/png;base64,"@ + base64_text(
                SYNTROPIC_LOGO@,
            ) + "\" alt=\"Syntropic logo\">\n"@,
        }
    }

    /// The element that shows the brand's logo.
    fn logo(self) -> (element: String)
        ensures
            element@ == self.logo_element(),
    {
        let mut element = String::new();
        match self {
            CallbackBrand::Codex => {},
            CallbackBrand::Syntropic => {
                element.append("<img src=\"data:image/png;base64,");
                element.append(encode_base64(SYNTROPIC_LOGO.as_slice()).as_str());
                element.append("\" alt=\"Syntropic logo\">\n");
            },
        }
        element
    }
}

impl CallbackBrand {
    /// The sources of images that the brand's pages may use.
    pub open spec fn image_policy(self) -> Seq<char> {
        match self {
            CallbackBrand::Codex => Seq::empty(),
            CallbackBrand::Syntropic => "img-src data:; "@,
        }
    }

    /// The content security policy of the brand's pages: nothing but the shared
    /// stylesheet, which is known by its hash, and the brand's logo.
    pub open spec fn security_policy(self) -> Seq<char> {
        "default-src 'none'; style-src 'sha256-"@ + base64_text(sha256_digest(encode_utf8(STYLE@)))
            + "'; "@ + self.image_policy() + "base-uri 'none'; frame-ancestors 'none'"@
    }

    /// The headers of the brand's pages.
    pub open spec fn page_headers(self) -> Seq<(Seq<char>, Seq<char>)> {
        seq![
            ("Content-Type"@, "text/html; charset=utf-8"@),
            ("Cache-Control"@, "no-store"@),
            ("Referrer-Policy"@, "no-referrer"@),
            ("X-Content-Type-Options"@, "nosniff"@),
            ("Content-Security-Policy"@, self.security_policy()),
        ]
    }

    /// The content security policy of the brand's pages.
    pub fn policy(self) -> (policy: String)
        ensures
            policy@ == self.security_policy(),
            is_ascii_chars(policy@),
    {
        proof {
            lemma_style();
        }
        let mut policy = String::new();
        let digest = sha256(STYLE.as_bytes());
        let hash = encode_base64(digest.as_slice());
        policy.append("default-src 'none'; style-src 'sha256-");
        policy.append(hash.as_str());
        policy.append("'; ");
        match self {
            CallbackBrand::Codex => {},
            CallbackBrand::Syntropic => {
                policy.append("img-src data:; ");
            },
        }
        policy.append("base-uri 'none'; frame-ancestors 'none'");
        proof {
            lemma_base64_text(digest@);
            reveal_strlit("default-src 'none'; style-src 'sha256-");
            reveal_strlit("'; ");
            reveal_strlit("img-src data:; ");
            reveal_strlit("base-uri 'none'; frame-ancestors 'none'");
            assert(policy@ == self.security_policy());
        }
        policy
    }
}

/// Adds a header whose name and value are known to be valid.
fn set_header(response: &mut Response<Cursor<Vec<u8>>>, name: &str, value: &str)
    requires
        is_ascii_chars(name@),
        is_ascii_chars(value@),
    ensures
        response_status(*final(response)) == response_status(*old(response)),
        response_body(*final(response)) == response_body(*old(response)),
        response_chunk_threshold(*final(response)) == response_chunk_threshold(*old(response)),
        !is_content_length(name@) ==> response_length(*final(response)) == response_length(
            *old(response),
        ),
        response_headers(*final(response)) == with_header(
            response_headers(*old(response)),
            name@,
            value@,
        ),
{
    match add_header(response, name, value) {
        Ok(()) => {},
        Err(()) => {
            assert(false);
        },
    }
}

/// The names of a page's headers are ASCII, and all but the first are neither reserved
/// nor that of the content type.
proof fn lemma_page_header_names()
    ensures
        is_ascii_chars("Content-Type"@),
        is_content_type("Content-Type"@),
        !is_reserved_header("Content-Type"@),
        is_ascii_chars("Cache-Control"@),
        !is_content_type("Cache-Control"@),
        !is_reserved_header("Cache-Control"@),
        is_ascii_chars("Referrer-Policy"@),
        !is_content_type("Referrer-Policy"@),
        !is_reserved_header("Referrer-Policy"@),
        is_ascii_chars("X-Content-Type-Options"@),
        !is_content_type("X-Content-Type-Options"@),
        !is_reserved_header("X-Content-Type-Options"@),
        is_ascii_chars("Content-Security-Policy"@),
        !is_content_type("Content-Security-Policy"@),
        !is_reserved_header("Content-Security-Policy"@),
{
    reveal_strlit("Connection");
    reveal_strlit("Trailer");
    reveal_strlit("Transfer-Encoding");
    reveal_strlit("Upgrade");
    reveal_strlit("Content-Length");
    reveal_strlit("Content-Type");
    reveal_strlit("Cache-Control");
    reveal_strlit("Referrer-Policy");
    reveal_strlit("X-Content-Type-Options");
    reveal_strlit("Content-Security-Policy");
    assert forall|a: Seq<char>, b: Seq<char>| #[trigger]
        equal_ignoring_case(a, b) implies a.len() == b.len() by {
        assert(ascii_lower_text(a).len() == a.len());
        assert(ascii_lower_text(b).len() == b.len());
    }
}

/// The values of a page's headers that are the same for every brand are ASCII.
proof fn lemma_page_header_values()
    ensures
        is_ascii_chars("text/html; charset=utf-8"@),
        is_ascii_chars("no-store"@),
        is_ascii_chars("no-referrer"@),
        is_ascii_chars("nosniff"@),
{
    reveal_strlit("text/html; charset=utf-8");
    reveal_strlit("no-store");
    reveal_strlit("no-referrer");
    reveal_strlit("nosniff");
}

impl CallbackPage {
    /// The response that shows the page.
    pub fn response(self, brand: CallbackBrand) -> (response: Response<Cursor<Vec<u8>>>)
        ensures
            response_status(response) == self.status(),
            response_headers(response) == brand.page_headers(),
            response_body(response) == encode_utf8(self.document_text(brand)),
            response_length(response) == Some(encode_utf8(self.document_text(brand)).len()),
            response_chunk_threshold(response) == 32768,
    {
        let (_, _, _, status) = self.parts();
        let mut response = with_status(text_response(self.document(brand)), status);
        let policy = brand.policy();
        proof {
            lemma_page_header_names();
            lemma_page_header_values();
            assert(first_content_type(response_headers(response), 0));
        }
        set_header(&mut response, "Content-Type", "text/html; charset=utf-8");
        set_header(&mut response, "Cache-Control", "no-store");
        set_header(&mut response, "Referrer-Policy", "no-referrer");
        set_header(&mut response, "X-Content-Type-Options", "nosniff");
        set_header(&mut response, "Content-Security-Policy", policy.as_str());
        response
    }
}

} // verus!
