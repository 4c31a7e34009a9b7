//! The CGI answers of the interactions endpoint.

use vstd::prelude::*;
use vstd::string::*;
use vstd::utf8::*;

use crate::text::{decimal, decimal_text};

verus! {

/// Whether the request carries both signature headers; a request without them
/// is answered with a plain greeting and not looked at further.
pub fn has_signature_headers(signature: &str, timestamp: &str) -> (r: bool)
    ensures
        r == (signature@.len() > 0 && timestamp@.len() > 0),
{
    !signature.is_empty() && !timestamp.is_empty()
}

/// The plain-text answer to a request without signature headers.
pub fn greeting_response() -> (r: String)
    ensures
        r@ == "Content-Type: text/plain\r\n\r\nStrive: Hello, there!"@,
{
    "Content-Type: text/plain\r\n\r\nStrive: Hello, there!".to_owned()
}

/// A complete CGI answer carrying the JSON document `json`: status line,
/// content type, the length of the body in bytes, a blank line, the body.
pub open spec fn cgi_json_text(json: Seq<char>) -> Seq<char> {
    "Status: 200 OK\r\nContent-Type: application/json\r\nContent-Length: "@
        + decimal(encode_utf8(json).len()) + "\r\n\r\n"@ + json
}

/// Frames a JSON answer for the web server. The `Content-Length` header gives
/// the length of the body in UTF-8 bytes, not in characters.
pub fn cgi_json_response(json: &str) -> (r: String)
    ensures
        r@ == cgi_json_text(json@),
{
    let mut out = "Status: 200 OK\r\nContent-Type: application/json\r\nContent-Length: ".to_owned();
    let n = json.as_bytes().len();
    let digits = decimal_text(n as u64);
    out.append(digits.as_str());
    out.append("\r\n\r\n");
    out.append(json);
    out
}

} // verus!
