//! Validation errors raised by the handlers, and their conversion to responses.
use vstd::prelude::*;

use crate::model::{text_view, Response, ResponseView, STATUS_BAD_REQUEST};

verus! {

/// Why a greeting request was rejected.
#[derive(Clone, Copy, Debug, PartialEq, Eq, Structural)]
pub enum ServerError {
    /// The path segment that names the person is empty.
    MissingName,
    /// The request body is absent, or one of its fields is empty.
    InvalidPayload,
}

/// The human-readable message of an error.
pub open spec fn message_of(e: ServerError) -> Seq<char> {
    match e {
        ServerError::MissingName => "Name parameter not provided."@,
        ServerError::InvalidPayload => "Invalid request payload."@,
    }
}

/// The response that an error becomes: status 400 with its message as body.
pub open spec fn error_response(e: ServerError) -> ResponseView {
    text_view(400, message_of(e))
}

impl ServerError {
    /// The message of this error, as shown to the client.
    pub fn message(&self) -> (r: String)
        ensures
            r@ == message_of(*self),
    {
        match self {
            ServerError::MissingName => "Name parameter not provided.".to_string(),
            ServerError::InvalidPayload => "Invalid request payload.".to_string(),
        }
    }

    /// Converts the error into its response; every error is converted.
    pub fn into_response(self) -> (r: Response)
        ensures
            r@ == error_response(self),
    {
        let msg = self.message();
        Response { status: STATUS_BAD_REQUEST, body: crate::model::Body::Text(msg) }
    }
}

} // verus!
