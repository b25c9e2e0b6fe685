//! A client's side of a login, as raw HTTP text: asking for a page, and reading it back
//! out of the response.

use vstd::prelude::*;
use vstd::string::*;

use crate::brand::{CallbackBrand, SYNTROPIC_LOGO};
use crate::encoding::lemma_base64_text;
use crate::page::{lemma_style, CallbackPage, DOCUMENT_START, STYLE};
use crate::text::{
    ascii_lower_text, characters, contains_text, find_from, first_occurrence, first_occurs_at,
    law_first_occurrence_is_the_first, lemma_first_occurrence, lower_case, occurs_at, replace,
    replace_all,
};

verus! {

/// What stands between the headers and the body of a response.
pub const BLANK_LINE: &'static str = "\r\n\r\n";

/// What stands for the shared stylesheet in the text of a page that was read back.
pub const STYLE_PLACEHOLDER: &'static str = "[shared callback stylesheet]";

/// The status line and the headers of a response.
pub open spec fn head_of(response: Seq<char>) -> Seq<char> {
    response.take(first_occurrence(response, BLANK_LINE@))
}

/// The body of a response.
pub open spec fn body_of(response: Seq<char>) -> Seq<char> {
    response.skip(first_occurrence(response, BLANK_LINE@) + BLANK_LINE@.len())
}

/// Whether the headers are those of a page: HTML that is not stored and whose address
/// is not passed on.
pub open spec fn is_page_head(head: Seq<char>) -> bool {
    let lower = ascii_lower_text(head);
    &&& contains_text(lower, "content-type: text/html; charset=utf-8"@)
    &&& contains_text(lower, "cache-control: no-store"@)
    &&& contains_text(lower, "referrer-policy: no-referrer"@)
}

/// Whether the raw text of a response carries a page.
pub open spec fn carries_page(response: Seq<char>) -> bool {
    contains_text(response, BLANK_LINE@) && is_page_head(head_of(response))
}

/// Whether the raw text of a response carries a page.
pub fn is_page(response: &str) -> (b: bool)
    ensures
        b == carries_page(response@),
{
    let text = characters(response);
    assert(text@.skip(0) == text@);
    match find_from(&text, &characters(BLANK_LINE), 0) {
        Some(end) => {
            proof {
                lemma_first_occurrence(response@, BLANK_LINE@);
            }
            let head = characters(response.substring_char(0, end));
            assert(head@ == head_of(response@));
            let lower = lower_case(&head);
            assert(lower@.skip(0) == lower@);
            find_from(&lower, &characters("content-type: text/html; charset=utf-8"), 0).is_some()
                && find_from(&lower, &characters("cache-control: no-store"), 0).is_some()
                && find_from(&lower, &characters("referrer-policy: no-referrer"), 0).is_some()
        },
        None => false,
    }
}

/// The text of the page that the raw text of a response carries, with the shared
/// stylesheet left out.
pub fn html(response: &str) -> (page: String)
    requires
        carries_page(response@),
    ensures
        page@ == replace_all(body_of(response@), STYLE@, STYLE_PLACEHOLDER@),
{
    let text = characters(response);
    assert(text@.skip(0) == text@);
    proof {
        lemma_style();
        lemma_first_occurrence(response@, BLANK_LINE@);
    }
    let blank = characters(BLANK_LINE);
    match find_from(&text, &blank, 0) {
        Some(end) => {
            assert(end + blank.len() <= text.len());
            let start = end + blank.len();
            let body = response.substring_char(start, text.len());
            assert(body@ == body_of(response@));
            replace(body, STYLE, STYLE_PLACEHOLDER)
        },
        None => {
            assert(false);
            String::new()
        },
    }
}

/// The raw text of the request for `path` that a client sends to the server at `address`,
/// over a connection that it does not use again.
pub fn request_text(path: &str, address: &str) -> (text: String)
    ensures
        text@ == "GET "@ + path@ + " HTTP/1.1\r\nHost: "@ + address@
            + "\r\nConnection: close\r\n\r\n"@,
{
    let mut text = String::new();
    text.append("GET ");
    text.append(path);
    text.append(" HTTP/1.1\r\nHost: ");
    text.append(address);
    text.append("\r\nConnection: close\r\n\r\n");
    text
}

/// The raw text of a response carries a page where its headers are a page's, and its
/// head and its body are then read back as they are.
pub proof fn law_page_is_read_back(head: Seq<char>, body: Seq<char>)
    requires
        is_page_head(head),
        !contains_text(head + "\r\n\r"@, BLANK_LINE@),
    ensures
        carries_page(head + BLANK_LINE@ + body),
        head_of(head + BLANK_LINE@ + body) == head,
        body_of(head + BLANK_LINE@ + body) == body,
{
    lemma_response_is_parted(head, body);
}

/// A head without a blank line, a blank line and a body are found again in the response that
/// they make.
proof fn lemma_response_is_parted(head: Seq<char>, body: Seq<char>)
    requires
        !contains_text(head + "\r\n\r"@, BLANK_LINE@),
    ensures
        contains_text(head + BLANK_LINE@ + body, BLANK_LINE@),
        head_of(head + BLANK_LINE@ + body) == head,
        body_of(head + BLANK_LINE@ + body) == body,
{
    reveal_strlit("\r\n\r");
    reveal_strlit("\r\n\r\n");
    let response = head + BLANK_LINE@ + body;
    let start = head + "\r\n\r"@;
    let n = head.len() as int;
    assert(response.subrange(n, n + 4) == BLANK_LINE@);
    assert(occurs_at(response, BLANK_LINE@, n));
    assert forall|j: int| j < n implies !occurs_at(response, BLANK_LINE@, j) by {
        if occurs_at(response, BLANK_LINE@, j) {
            assert(start.subrange(j, j + 4) == response.subrange(j, j + 4));
            assert(occurs_at(start, BLANK_LINE@, j));
        }
    }
    assert(first_occurs_at(response, BLANK_LINE@, n));
    lemma_first_occurrence(response, BLANK_LINE@);
    assert(head_of(response) == head);
    assert(body_of(response) == body);
}

/// The headers of a page are known by three lines, in any case of letters: a head has each
/// of them if and only if it is a page's.
pub proof fn law_page_head_has_its_three_headers(head: Seq<char>)
    ensures
        is_page_head(head) ==> contains_text(
            ascii_lower_text(head),
            "content-type: text/html; charset=utf-8"@,
        ),
        is_page_head(head) ==> contains_text(ascii_lower_text(head), "cache-control: no-store"@),
        is_page_head(head) ==> contains_text(
            ascii_lower_text(head),
            "referrer-policy: no-referrer"@,
        ),
        contains_text(ascii_lower_text(head), "content-type: text/html; charset=utf-8"@)
            && contains_text(ascii_lower_text(head), "cache-control: no-store"@) && contains_text(
            ascii_lower_text(head),
            "referrer-policy: no-referrer"@,
        ) ==> is_page_head(head),
{
}

/// A response that carries a page is its head, a blank line and its body, with no blank line
/// before that one, and each of the three headers of a page stands in the head, in any case
/// of letters. So no response carries a page that has no blank line, or one of those headers
/// nowhere but in its body.
pub proof fn law_page_comes_with_its_headers(response: Seq<char>)
    requires
        carries_page(response),
    ensures
        response == head_of(response) + "\r\n\r\n"@ + body_of(response),
        forall|before: Seq<char>, after: Seq<char>|
            response == #[trigger] (before + "\r\n\r\n"@ + after) ==> head_of(response).len()
                <= before.len(),
        contains_text(
            ascii_lower_text(head_of(response)),
            "content-type: text/html; charset=utf-8"@,
        ),
        contains_text(ascii_lower_text(head_of(response)), "cache-control: no-store"@),
        contains_text(ascii_lower_text(head_of(response)), "referrer-policy: no-referrer"@),
{
    law_first_occurrence_is_the_first(response, BLANK_LINE@);
}

/// Whatever the body, a response with a page's headers carries a page, and one that lacks a
/// header in its head carries none: the body has no part in it.
pub proof fn law_head_alone_makes_a_page(head: Seq<char>, body: Seq<char>)
    requires
        !contains_text(head + "\r\n\r"@, "\r\n\r\n"@),
    ensures
        carries_page(head + "\r\n\r\n"@ + body) <==> {
            &&& contains_text(
                ascii_lower_text(head),
                "content-type: text/html; charset=utf-8"@,
            )
            &&& contains_text(ascii_lower_text(head), "cache-control: no-store"@)
            &&& contains_text(ascii_lower_text(head), "referrer-policy: no-referrer"@)
        },
        head_of(head + "\r\n\r\n"@ + body) == head,
        body_of(head + "\r\n\r\n"@ + body) == body,
{
    lemma_response_is_parted(head, body);
}

/// A text without a blank line carries no page.
pub proof fn law_no_page_without_a_blank_line(response: Seq<char>)
    requires
        !contains_text(response, "\r\n\r\n"@),
    ensures
        !carries_page(response),
{
}

/// A head in which the headers of a page stand, as lines of name and value, is a page's.
pub proof fn law_page_headers_make_a_page_head(head: Seq<char>, brand: CallbackBrand)
    requires
        forall|i: int|
            0 <= i < brand.page_headers().len() ==> contains_text(
                head,
                (#[trigger] brand.page_headers()[i]).0 + ": "@ + brand.page_headers()[i].1,
            ),
    ensures
        is_page_head(head),
{
    reveal_strlit(": ");
    reveal_strlit("Content-Type");
    reveal_strlit("text/html; charset=utf-8");
    reveal_strlit("content-type: text/html; charset=utf-8");
    reveal_strlit("Cache-Control");
    reveal_strlit("no-store");
    reveal_strlit("cache-control: no-store");
    reveal_strlit("Referrer-Policy");
    reveal_strlit("no-referrer");
    reveal_strlit("referrer-policy: no-referrer");
    let headers = brand.page_headers();
    let kind = headers[0].0 + ": "@ + headers[0].1;
    let storage = headers[1].0 + ": "@ + headers[1].1;
    let referrer = headers[2].0 + ": "@ + headers[2].1;
    lemma_contains_lower(head, kind);
    lemma_contains_lower(head, storage);
    lemma_contains_lower(head, referrer);
    assert(ascii_lower_text(kind) == "content-type: text/html; charset=utf-8"@);
    assert(ascii_lower_text(storage) == "cache-control: no-store"@);
    assert(ascii_lower_text(referrer) == "referrer-policy: no-referrer"@);
}

proof fn lemma_contains_lower(s: Seq<char>, needle: Seq<char>)
    requires
        contains_text(s, needle),
    ensures
        contains_text(ascii_lower_text(s), ascii_lower_text(needle)),
{
    let i = choose|i: int| occurs_at(s, needle, i);
    let lower = ascii_lower_text(s);
    assert forall|k: int| 0 <= k < needle.len() implies #[trigger] s[i + k] == needle[k] by {
        assert(s.subrange(i, i + needle.len())[k] == s[i + k]);
    }
    assert(lower.subrange(i, i + needle.len()) == ascii_lower_text(needle));
    assert(occurs_at(lower, ascii_lower_text(needle), i));
}

/// Every page holds the shared stylesheet once: read back, it is the page with the
/// placeholder in its place.
pub proof fn law_stylesheet_is_left_out(page: CallbackPage, brand: CallbackBrand)
    ensures
        replace_all(page.document_text(brand), STYLE@, STYLE_PLACEHOLDER@) == page.document_in(
            brand,
            STYLE_PLACEHOLDER@,
        ),
{
    reveal_strlit(
        "<!doctype html>\n<html lang=\"en\">\n<head>\n<meta charset=\"utf-8\">\n<meta name=\"viewport\" content=\"width=device-width, initial-scale=1\">\n<title>",
    );
    reveal_strlit("</title>\n");
    reveal_strlit("\n<style>");
    reveal_strlit("</style>\n</head>\n<body>\n");
    reveal_strlit("<h1>");
    reveal_strlit("</h1>\n<p>");
    reveal_strlit("</p>\n</body>\n</html>\n");
    lemma_style();
    lemma_unmarked_parts(page, brand);
    let before = DOCUMENT_START@
        + page.title() + "</title>\n"@ + page.refresh() + "\n<style>"@;
    let after = "</style>\n</head>\n<body>\n"@ + brand.logo_element() + "<h1>"@ + page.title()
        + "</h1>\n<p>"@ + page.message() + "</p>\n</body>\n</html>\n"@;
    assert(unmarked(before));
    assert(unmarked(after));
    assert(page.document_text(brand) == before + STYLE@ + after);
    assert(page.document_in(brand, STYLE_PLACEHOLDER@) == before + STYLE_PLACEHOLDER@ + after);
    lemma_replace_marked(before, after);
}

/// Whether the character by which the stylesheet is known does not stand in `s`.
spec fn unmarked(s: Seq<char>) -> bool {
    forall|i: int| 0 <= i < s.len() ==> #[trigger] s[i] != '*'
}

/// The stylesheet cannot be found in what a page says.
proof fn lemma_unmarked_parts(page: CallbackPage, brand: CallbackBrand)
    ensures
        unmarked(page.title()),
        unmarked(page.message()),
        unmarked(page.refresh()),
        unmarked(brand.logo_element()),
{
    reveal_strlit("Completing authentication");
    reveal_strlit("Authentication complete");
    reveal_strlit("Authentication failed");
    reveal_strlit("Invalid OAuth callback");
    reveal_strlit("Please wait while Codex verifies and saves your credentials.");
    reveal_strlit("Your credentials have been saved. You may close this window.");
    reveal_strlit("Codex could not complete authentication. Return to Codex and try again.");
    reveal_strlit("This request does not match the callback. Return to Codex to continue signing in.");
    reveal_strlit("<meta http-equiv=\"refresh\" content=\"1;url=");
    reveal_strlit("?codex_oauth_result=1");
    reveal_strlit("\">");
    reveal_strlit("<img src=\"data:image/png;base64,");
    reveal_strlit("\" alt=\"Syntropic logo\">\n");
    lemma_base64_text(SYNTROPIC_LOGO@);
}

/// A stylesheet between two texts in which it cannot be found is replaced once.
proof fn lemma_replace_marked(before: Seq<char>, after: Seq<char>)
    requires
        unmarked(before),
        unmarked(after),
    ensures
        replace_all(before + STYLE@ + after, STYLE@, STYLE_PLACEHOLDER@) == before
            + STYLE_PLACEHOLDER@ + after,
{
    lemma_style();
    let text = before + STYLE@ + after;
    let n = before.len() as int;
    assert(text.subrange(n, n + STYLE@.len()) == STYLE@);
    assert(occurs_at(text, STYLE@, n));
    assert forall|j: int| j < n implies !occurs_at(text, STYLE@, j) by {
        if occurs_at(text, STYLE@, j) {
            assert(text.subrange(j, j + STYLE@.len())[0] == before[j]);
        }
    }
    assert(first_occurs_at(text, STYLE@, n));
    lemma_first_occurrence(text, STYLE@);
    assert(text.take(n) == before);
    assert(text.skip(n + STYLE@.len()) == after);
    assert forall|j: int| !occurs_at(after, STYLE@, j) by {
        if occurs_at(after, STYLE@, j) {
            assert(after.subrange(j, j + STYLE@.len())[0] == after[j]);
        }
    }
    assert(replace_all(after, STYLE@, STYLE_PLACEHOLDER@) == after);
    assert(first_occurrence(text, STYLE@) == n);
}

} // verus!
