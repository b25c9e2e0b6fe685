//! HTTP responses of the `tiny_http` crate.

use std::io::Cursor;
use tiny_http::Header;
use tiny_http::Response;
use vstd::prelude::*;
use vstd::utf8::{encode_utf8, is_ascii_chars};

use crate::text::equal_ignoring_case;

verus! {

/// The reader of bytes in memory, of `std`.
#[verifier::external_type_specification]
#[verifier::external_body]
#[verifier::reject_recursive_types(T)]
pub struct ExCursor<T>(std::io::Cursor<T>);

/// The response of `tiny_http`: a list of headers, a status code and a body.
#[verifier::external_type_specification]
#[verifier::external_body]
#[verifier::reject_recursive_types(R)]
pub struct ExResponse<R>(tiny_http::Response<R>);

/// The headers that a response holds, in order, each as its name and its value.
pub uninterp spec fn response_headers(response: Response<Cursor<Vec<u8>>>) -> Seq<(Seq<char>, Seq<char>)>;

/// The status code that a response holds.
pub uninterp spec fn response_status(response: Response<Cursor<Vec<u8>>>) -> u16;

/// The bytes that a response holds as its body.
pub uninterp spec fn response_body(response: Response<Cursor<Vec<u8>>>) -> Seq<u8>;

/// The length of the body that a response declares.
pub uninterp spec fn response_length(response: Response<Cursor<Vec<u8>>>) -> Option<nat>;

/// The declared length from which on a response prefers to be sent in chunks.
pub uninterp spec fn response_chunk_threshold(response: Response<Cursor<Vec<u8>>>) -> usize;

/// Whether `name` is that of the length of the body.
pub open spec fn is_content_length(name: Seq<char>) -> bool {
    equal_ignoring_case(name, "Content-Length"@)
}

/// Whether a header of this name is never kept in the list of headers: the
/// connection is `tiny_http`'s own, and the length of the body is held elsewhere.
pub open spec fn is_reserved_header(name: Seq<char>) -> bool {
    ||| equal_ignoring_case(name, "Connection"@)
    ||| equal_ignoring_case(name, "Trailer"@)
    ||| equal_ignoring_case(name, "Transfer-Encoding"@)
    ||| equal_ignoring_case(name, "Upgrade"@)
    ||| is_content_length(name)
}

/// Whether `name` is that of the content type.
pub open spec fn is_content_type(name: Seq<char>) -> bool {
    equal_ignoring_case(name, "Content-Type"@)
}

/// Whether the first content type among `headers` stands at `i`.
pub open spec fn first_content_type(headers: Seq<(Seq<char>, Seq<char>)>, i: int) -> bool {
    &&& 0 <= i < headers.len()
    &&& is_content_type(headers[i].0)
    &&& forall|j: int| 0 <= j < i ==> !is_content_type(#[trigger] headers[j].0)
}

/// A list of headers after one more was added: a reserved header is left out, a
/// content type takes the place of the value of the first one in the list, if it
/// has one, and any other header goes to the end.
pub open spec fn with_header(
    headers: Seq<(Seq<char>, Seq<char>)>,
    name: Seq<char>,
    value: Seq<char>,
) -> Seq<(Seq<char>, Seq<char>)> {
    if is_reserved_header(name) {
        headers
    } else if is_content_type(name) && exists|i: int| first_content_type(headers, i) {
        let i = choose|i: int| first_content_type(headers, i);
        headers.update(i, (headers[i].0, value))
    } else {
        headers.push((name, value))
    }
}

/// Calls `tiny_http`'s `Response::from_string`. Claims that the response has
/// status 200, that its body is the text in UTF-8, of which it declares the length,
/// that its one header says that it is plain text, and that its threshold for chunks is
/// the default, 32768 bytes.
#[verifier::external_body]
pub(crate) fn text_response(body: String) -> (response: Response<Cursor<Vec<u8>>>)
    ensures
        response_status(response) == 200,
        response_headers(response) == seq![("Content-Type"@, "text/plain; charset=UTF-8"@)],
        response_body(response) == encode_utf8(body@),
        response_length(response) == Some(encode_utf8(body@).len()),
        response_chunk_threshold(response) == 32768,
{
    Response::from_string(body)
}

/// Calls `tiny_http`'s `Response::with_status_code`. Claims that the result has
/// the status code given, and all else from the response given: its headers, its
/// body, its declared length and its threshold for chunks.
#[verifier::external_body]
pub(crate) fn with_status(response: Response<Cursor<Vec<u8>>>, status: u16) -> (result: Response<
    Cursor<Vec<u8>>,
>)
    ensures
        response_status(result) == status,
        response_headers(result) == response_headers(response),
        response_body(result) == response_body(response),
        response_length(result) == response_length(response),
        response_chunk_threshold(result) == response_chunk_threshold(response),
{
    response.with_status_code(status)
}

/// Calls `tiny_http`'s `Response::add_header`, with the header that
/// `Header::from_bytes` makes of the name and the value. Claims that there is such
/// a header exactly where both are ASCII, that it is then added to the list of headers
/// as `with_header` says, and that the list stays otherwise; and that the status code,
/// the body and the threshold for chunks stay in any case. So does the declared length,
/// but for a header that gives one, of which it is left unsaid what length is declared
/// afterwards.
#[verifier::external_body]
pub(crate) fn add_header(
    response: &mut Response<Cursor<Vec<u8>>>,
    name: &str,
    value: &str,
) -> (result: Result<(), ()>)
    ensures
        result is Ok == (is_ascii_chars(name@) && is_ascii_chars(value@)),
        response_status(*final(response)) == response_status(*old(response)),
        response_body(*final(response)) == response_body(*old(response)),
        response_chunk_threshold(*final(response)) == response_chunk_threshold(*old(response)),
        !is_content_length(name@) ==> response_length(*final(response)) == response_length(
            *old(response),
        ),
        result is Ok ==> response_headers(*final(response)) == with_header(
            response_headers(*old(response)),
            name@,
            value@,
        ),
        result is Err ==> response_headers(*final(response)) == response_headers(*old(response)),
{
    let header = Header::from_bytes(name, value)?;
    response.add_header(header);
    Ok(())
}

} // verus!
