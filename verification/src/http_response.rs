//! What the fetcher makes of an HTTP exchange: the document built from a
//! success, the synthetic codes of transport failures, and the error each
//! outcome surfaces. The transport itself is the application shell's.

use vstd::prelude::*;

use crate::document::Document;
use crate::errors::Errors;

verus! {

/// The synthetic status of a connection failure.
pub fn code_connection_error() -> (r: u16)
    ensures
        r == 900,
{
    900
}

/// The synthetic status of a timeout or a body-read failure.
pub fn code_timeout() -> (r: u16)
    ensures
        r == 901,
{
    901
}

/// The advertised content length of a response, with the observed body
/// length as fallback.
pub open spec fn spec_content_length(header: Option<u64>, body_len: int) -> int {
    match header {
        Some(n) => n as int,
        None => body_len,
    }
}

/// Builds the fetched document from a response. Only status 200 yields a
/// document: its media type is the `Content-Type` header or empty, its
/// length the `Content-Length` header with the body length as fallback.
/// Every other status is handed back as the failure code.
pub fn document_from_response(
    req_id: u128,
    url: &str,
    status: u16,
    content_length_header: Option<u64>,
    content_type_header: Option<String>,
    body: Vec<u8>,
) -> (r: Result<Document, u16>)
    ensures
        status == 200 ==> (r matches Ok(d) && {
            &&& d.id == req_id
            &&& d.url@ == url@
            &&& d.bytes@ == body@
            &&& d.content_length == spec_content_length(content_length_header, body@.len() as int)
            &&& match content_type_header {
                Some(ct) => d.content_type@ == ct@,
                None => d.content_type@.len() == 0,
            }
        }),
        status != 200 ==> r == Err::<Document, u16>(status),
{
    if status != 200 {
        return Err(status);
    }
    let body_len = body.len();
    let content_length = match content_length_header {
        Some(n) => n,
        Option::None => body_len as u64,
    };
    let content_type = match content_type_header {
        Some(ct) => ct,
        Option::None => String::new(),
    };
    Ok(Document { id: req_id, content_type, content_length, bytes: body, url: url.to_owned() })
}

/// The error a failed fetch surfaces: the synthetic timeout code is a
/// timeout, a missing origin document is not-found, anything else failed
/// outright.
pub open spec fn spec_fetch_error(code: u16) -> Errors {
    if code == 901 {
        Errors::TimedOut
    } else if code == 404 {
        Errors::NotFound
    } else {
        Errors::FetchFailed
    }
}

/// Maps a failure code to the error the caller sees.
pub fn fetch_error_of(code: u16) -> (r: Errors)
    ensures
        r == spec_fetch_error(code),
{
    if code == 901 {
        Errors::TimedOut
    } else if code == 404 {
        Errors::NotFound
    } else {
        Errors::FetchFailed
    }
}

} // verus!
