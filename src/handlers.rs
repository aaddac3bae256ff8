//! The handlers behind each route. Each is a pure function of the data
//! extracted from the request.
use vstd::prelude::*;

use crate::error::ServerError;
use crate::model::{payload_view, text_view, Greet, GreetMe, Response, STATUS_NOT_FOUND, STATUS_OK};

verus! {

/// Text of the plain hello route.
pub open spec fn hello_text() -> Seq<char> {
    "Hello, World!"@
}

/// Body of the 404 answered at the root path.
pub open spec fn not_found_text() -> Seq<char> {
    "404 page not found"@
}

/// Body of the 404 answered when no route matches.
pub open spec fn fallback_text() -> Seq<char> {
    "Empty Response!"@
}

/// The greeting word used by the path-based greeter.
pub open spec fn default_greet() -> Seq<char> {
    "Hello"@
}

/// Whether a POST body is acceptable: present, with both fields non-empty.
pub open spec fn valid_payload(payload: Option<(Seq<char>, Seq<char>)>) -> bool {
    match payload {
        Some((input, name)) => input.len() > 0 && name.len() > 0,
        None => false,
    }
}

/// Answers the plain hello route.
pub fn hello() -> (r: Response)
    ensures
        r@ == text_view(200, hello_text()),
{
    Response::text(STATUS_OK, "Hello, World!")
}

/// Answers the root path, which serves nothing.
pub fn not_found() -> (r: Response)
    ensures
        r@ == text_view(404, not_found_text()),
{
    Response::text(STATUS_NOT_FOUND, "404 page not found")
}

/// Answers any request that no route matches.
pub fn fallback() -> (r: Response)
    ensures
        r@ == text_view(404, fallback_text()),
{
    Response::text(STATUS_NOT_FOUND, "Empty Response!")
}

/// Greets the person named by the path segment; an empty name is rejected.
pub fn greet_user(name: String) -> (r: Result<Greet, ServerError>)
    ensures
        r is Ok <==> name@.len() > 0,
        r is Err ==> r->Err_0 == ServerError::MissingName,
        r is Ok ==> r->Ok_0.greet@ == default_greet() && r->Ok_0.name@ == name@,
{
    if name.as_str().is_empty() {
        return Err(ServerError::MissingName);
    }
    let greeting = Greet { greet: "Hello".to_string(), name };
    Ok(greeting)
}

/// Greets with the word and the name of the request body; an absent body,
/// or one with an empty field, is rejected as a whole.
pub fn greet_user_post(payload: Option<GreetMe>) -> (r: Result<Greet, ServerError>)
    ensures
        r is Ok <==> valid_payload(payload_view(payload)),
        r is Err ==> r->Err_0 == ServerError::InvalidPayload,
        r is Ok ==> r->Ok_0.greet@ == payload->Some_0.input@ && r->Ok_0.name@
            == payload->Some_0.name@,
{
    match payload {
        Some(body) => {
            if !body.input.as_str().is_empty() && !body.name.as_str().is_empty() {
                Ok(Greet { greet: body.input, name: body.name })
            } else {
                Err(ServerError::InvalidPayload)
            }
        },
        None => Err(ServerError::InvalidPayload),
    }
}

} // verus!
