//! The trusted boundary to the transport: declarations of the outside types
//! that carry a request, a response and their errors, and one wrapper per
//! outside function that the client calls.

use vstd::prelude::*;

verus! {

#[verifier::external_type_specification]
#[verifier::external_body]
pub struct ExRequest(ureq::Request);

#[verifier::external_type_specification]
#[verifier::external_body]
pub struct ExResponse(ureq::Response);

#[verifier::external_type_specification]
#[verifier::external_body]
pub struct ExTransportError(ureq::Error);

#[verifier::external_type_specification]
#[verifier::external_body]
pub struct ExJsonValue(serde_json::Value);

#[verifier::external_type_specification]
#[verifier::external_body]
pub struct ExIoError(std::io::Error);

/// Relies on ureq::request: assembles a request for the given method token
/// and url. Nothing is validated and no call happens yet.
#[verifier::external_body]
pub(crate) fn new_request(method: &str, url: &str) -> ureq::Request {
    ureq::request(method, url)
}

/// Relies on ureq::Request::set: records one header on the request. For most
/// names an earlier header whose name matches exactly is replaced; names that
/// start with `x-` or `X-` accumulate. The library hands it a list that holds
/// each name at most once, so the difference does not show.
#[verifier::external_body]
pub(crate) fn set_header(r: ureq::Request, key: &str, value: &str) -> ureq::Request {
    r.set(key, value)
}

/// Relies on ureq::Request::call: performs the blocking call without a body.
#[verifier::external_body]
pub(crate) fn call_request(r: ureq::Request) -> Result<ureq::Response, ureq::Error> {
    r.call()
}

/// Relies on ureq::Request::send_json: performs the blocking call with the
/// given value as a JSON body. Serializing a serde_json::Value to bytes
/// cannot fail, so the panic inside send_json for unserializable data is not
/// reachable from here.
#[verifier::external_body]
pub(crate) fn send_json_request(r: ureq::Request, body: serde_json::Value) -> Result<
    ureq::Response,
    ureq::Error,
> {
    r.send_json(body)
}

/// Relies on ureq::Response::status: the numeric status code of the response.
#[verifier::external_body]
pub(crate) fn response_status(r: &ureq::Response) -> u16 {
    r.status()
}

/// Relies on ureq::Response::into_string: reads the whole response entity and
/// decodes it to text; a read failure, or an entity over the library's size
/// cap, is the error.
#[verifier::external_body]
pub(crate) fn response_text(r: ureq::Response) -> Result<String, std::io::Error> {
    r.into_string()
}

/// Relies on the two variants of ureq::Error: a call that reached the server
/// but was answered with a status of 400 or above comes back as
/// `Status(code, response)`, and everything that failed before a status line
/// was received comes back as `Transport`.
#[verifier::external_body]
pub(crate) fn split_error(e: ureq::Error) -> (r: Result<(u16, ureq::Response), ureq::Error>)
    ensures
        (r matches Ok(p) ==> p.0 >= 400),
{
    match e {
        ureq::Error::Status(code, resp) => Ok((code, resp)),
        other => Err(other),
    }
}

/// Relies on the Display of ureq::Error: a status error writes the url and
/// the words "status code", and a transport error always writes its kind,
/// a fixed non-empty token; so the text is never empty.
#[verifier::external_body]
pub(crate) fn error_text(e: &ureq::Error) -> (r: String)
    ensures
        r@.len() > 0,
{
    e.to_string()
}

/// Relies on the Display of std::io::Error for the decode diagnostic. No
/// length is promised: a custom error that wraps an empty message prints
/// nothing, so the caller checks for an empty text itself.
#[verifier::external_body]
pub(crate) fn io_error_text(e: &std::io::Error) -> String {
    e.to_string()
}

} // verus!
