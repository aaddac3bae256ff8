//! The values that handlers consume and produce, and their abstract views.
use vstd::prelude::*;

verus! {

/// HTTP status of a successful response.
pub const STATUS_OK: u16 = 200;

/// HTTP status of a rejected request.
pub const STATUS_BAD_REQUEST: u16 = 400;

/// HTTP status of a path that no handler serves.
pub const STATUS_NOT_FOUND: u16 = 404;

/// The greeting returned to the client, serialised as `{"greet": .., "name": ..}`.
#[derive(Clone, Debug, PartialEq, Eq)]
pub struct Greet {
    pub greet: String,
    pub name: String,
}

/// The body of a POST greeting request: `{"input": .., "name": ..}`.
#[derive(Clone, Debug, PartialEq, Eq)]
pub struct GreetMe {
    pub input: String,
    pub name: String,
}

impl View for GreetMe {
    type V = (Seq<char>, Seq<char>);

    open spec fn view(&self) -> (Seq<char>, Seq<char>) {
        (self.input@, self.name@)
    }
}

/// The abstract content of an optional request body.
pub open spec fn payload_view(p: Option<GreetMe>) -> Option<(Seq<char>, Seq<char>)> {
    match p {
        Some(body) => Some(body@),
        None => None,
    }
}

/// What a response carries: plain text, or a greeting to be sent as JSON.
#[derive(Clone, Debug, PartialEq, Eq)]
pub enum Body {
    Text(String),
    Json(Greet),
}

/// A complete response: a status code and a body.
#[derive(Clone, Debug, PartialEq, Eq)]
pub struct Response {
    pub status: u16,
    pub body: Body,
}

/// The abstract content of a response body.
pub enum BodyView {
    Text(Seq<char>),
    Json { greet: Seq<char>, name: Seq<char> },
}

/// The abstract content of a response.
pub struct ResponseView {
    pub status: u16,
    pub body: BodyView,
}

impl View for Body {
    type V = BodyView;

    open spec fn view(&self) -> BodyView {
        match self {
            Body::Text(t) => BodyView::Text(t@),
            Body::Json(g) => BodyView::Json { greet: g.greet@, name: g.name@ },
        }
    }
}

impl View for Response {
    type V = ResponseView;

    open spec fn view(&self) -> ResponseView {
        ResponseView { status: self.status, body: self.body@ }
    }
}

/// A plain-text response with the given status.
pub open spec fn text_view(status: u16, text: Seq<char>) -> ResponseView {
    ResponseView { status, body: BodyView::Text(text) }
}

/// A successful JSON greeting response.
pub open spec fn greeting_view(greet: Seq<char>, name: Seq<char>) -> ResponseView {
    ResponseView { status: 200, body: BodyView::Json { greet, name } }
}

impl Response {
    /// A plain-text response.
    pub fn text(status: u16, text: &str) -> (r: Response)
        ensures
            r@ == text_view(status, text@),
    {
        Response { status, body: Body::Text(text.to_string()) }
    }

    /// A successful response carrying a greeting as JSON.
    pub fn json(greeting: Greet) -> (r: Response)
        ensures
            r@ == greeting_view(greeting.greet@, greeting.name@),
    {
        Response { status: STATUS_OK, body: Body::Json(greeting) }
    }
}

} // verus!
