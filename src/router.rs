//! Dispatch of a request to its handler by exact method and path, and the
//! response that each request receives.
use vstd::prelude::*;

use crate::error::{error_response, ServerError};
use crate::handlers::{
    default_greet, fallback, fallback_text, greet_user, greet_user_post, hello, hello_text,
    not_found, not_found_text, valid_payload,
};
use crate::model::{greeting_view, payload_view, text_view, Greet, GreetMe, Response, ResponseView};

verus! {

/// The request methods that the router tells apart.
#[derive(Clone, Copy, Debug, PartialEq, Eq, Structural)]
pub enum Method {
    Get,
    Post,
    /// Any other method; it never matches a route.
    Other,
}

/// A request as the router sees it: method, path, and the decoded JSON body,
/// absent when the request carried none (or `null`).
#[derive(Clone, Debug, PartialEq, Eq)]
pub struct Request {
    pub method: Method,
    pub path: String,
    pub body: Option<GreetMe>,
}

/// The abstract content of a request.
pub struct RequestView {
    pub method: Method,
    pub path: Seq<char>,
    pub body: Option<(Seq<char>, Seq<char>)>,
}

impl View for Request {
    type V = RequestView;

    open spec fn view(&self) -> RequestView {
        RequestView { method: self.method, path: self.path@, body: payload_view(self.body) }
    }
}

/// The handler that a request is dispatched to.
#[derive(Clone, Debug, PartialEq, Eq)]
pub enum Route {
    Hello,
    Root,
    /// The path-based greeter, with the captured segment.
    Greet(String),
    GreetMe,
    Fallback,
}

/// The abstract content of a route.
pub enum RouteView {
    Hello,
    Root,
    Greet(Seq<char>),
    GreetMe,
    Fallback,
}

impl View for Route {
    type V = RouteView;

    open spec fn view(&self) -> RouteView {
        match self {
            Route::Hello => RouteView::Hello,
            Route::Root => RouteView::Root,
            Route::Greet(name) => RouteView::Greet(name@),
            Route::GreetMe => RouteView::GreetMe,
            Route::Fallback => RouteView::Fallback,
        }
    }
}

/// The fixed part of the greeting path, before the captured segment.
pub open spec fn greet_prefix() -> Seq<char> {
    "/greet/"@
}

/// Whether `path` is the greeting prefix followed by one segment (possibly empty).
pub open spec fn is_greet_path(path: Seq<char>) -> bool {
    &&& path.len() >= greet_prefix().len()
    &&& path.subrange(0, greet_prefix().len() as int) == greet_prefix()
    &&& !path.subrange(greet_prefix().len() as int, path.len() as int).contains('/')
}

/// The route that a method and a path select.
pub open spec fn route_of(method: Method, path: Seq<char>) -> RouteView {
    if method == Method::Get && path == "/hello"@ {
        RouteView::Hello
    } else if method == Method::Get && path == "/"@ {
        RouteView::Root
    } else if method == Method::Get && is_greet_path(path) {
        RouteView::Greet(path.subrange(greet_prefix().len() as int, path.len() as int))
    } else if method == Method::Post && path == "/greetme"@ {
        RouteView::GreetMe
    } else {
        RouteView::Fallback
    }
}

/// The response that a greeter's outcome becomes.
pub open spec fn outcome_response(ok: bool, greet: Seq<char>, name: Seq<char>, e: ServerError) -> ResponseView {
    if ok {
        greeting_view(greet, name)
    } else {
        error_response(e)
    }
}

/// The response that a request receives.
pub open spec fn response_of(req: RequestView) -> ResponseView {
    match route_of(req.method, req.path) {
        RouteView::Hello => text_view(200, hello_text()),
        RouteView::Root => text_view(404, not_found_text()),
        RouteView::Greet(name) => outcome_response(
            name.len() > 0,
            default_greet(),
            name,
            ServerError::MissingName,
        ),
        RouteView::GreetMe => outcome_response(
            valid_payload(req.body),
            req.body->Some_0.0,
            req.body->Some_0.1,
            ServerError::InvalidPayload,
        ),
        RouteView::Fallback => text_view(404, fallback_text()),
    }
}

/// Number of characters in the greeting prefix `/greet/`.
const GREET_PREFIX_LEN: usize = 7;

/// Whether `s` and `t` hold the same characters.
fn same_chars(s: &str, t: &str) -> (r: bool)
    ensures
        r == (s@ == t@),
{
    let n = s.unicode_len();
    if n != t.unicode_len() {
        return false;
    }
    let mut i: usize = 0;
    while i < n
        invariant
            n == s@.len(),
            n == t@.len(),
            i <= n,
            s@.subrange(0, i as int) == t@.subrange(0, i as int),
        decreases n - i,
    {
        if s.get_char(i) != t.get_char(i) {
            return false;
        }
        assert(s@.subrange(0, i + 1) == s@.subrange(0, i as int).push(s@[i as int]));
        assert(t@.subrange(0, i + 1) == t@.subrange(0, i as int).push(t@[i as int]));
        i = i + 1;
    }
    assert(s@ == s@.subrange(0, n as int));
    assert(t@ == t@.subrange(0, n as int));
    true
}

/// Whether `s` holds a `/` at some position from `start` on.
fn has_slash_from(s: &str, start: usize) -> (r: bool)
    requires
        start <= s@.len(),
    ensures
        r == s@.subrange(start as int, s@.len() as int).contains('/'),
{
    let n = s.unicode_len();
    let ghost rest = s@.subrange(start as int, n as int);
    let mut i: usize = start;
    while i < n
        invariant
            n == s@.len(),
            start <= i <= n,
            rest == s@.subrange(start as int, n as int),
            forall|k: int| start <= k < i ==> s@[k] != '/',
        decreases n - i,
    {
        if s.get_char(i) == '/' {
            assert(rest[i - start] == '/');
            return true;
        }
        i = i + 1;
    }
    assert forall|k: int| 0 <= k < rest.len() implies rest[k] != '/' by {
        assert(rest[k] == s@[start + k]);
    }
    false
}

/// Selects the route for a method and a path.
pub fn route(method: Method, path: &str) -> (r: Route)
    ensures
        r@ == route_of(method, path@),
{
    proof {
        reveal_strlit("/hello");
        reveal_strlit("/");
        reveal_strlit("/greet/");
        reveal_strlit("/greetme");
    }
    let n = path.unicode_len();
    if method == Method::Get && same_chars(path, "/hello") {
        Route::Hello
    } else if method == Method::Get && same_chars(path, "/") {
        Route::Root
    } else if method == Method::Get && n >= GREET_PREFIX_LEN && same_chars(
        path.substring_char(0, GREET_PREFIX_LEN),
        "/greet/",
    ) && !has_slash_from(path, GREET_PREFIX_LEN) {
        Route::Greet(path.substring_char(GREET_PREFIX_LEN, n).to_owned())
    } else if method == Method::Post && same_chars(path, "/greetme") {
        Route::GreetMe
    } else {
        Route::Fallback
    }
}

/// Turns a greeter's outcome into its response: the greeting as JSON with
/// status 200, or the error's response.
pub fn greeting_response(outcome: Result<Greet, ServerError>) -> (r: Response)
    ensures
        outcome is Ok ==> r@ == greeting_view(outcome->Ok_0.greet@, outcome->Ok_0.name@),
        outcome is Err ==> r@ == error_response(outcome->Err_0),
{
    match outcome {
        Ok(greeting) => Response::json(greeting),
        Err(e) => e.into_response(),
    }
}

/// Answers a request: dispatches it to its route's handler and converts the
/// handler's outcome into a response.
pub fn respond(req: Request) -> (r: Response)
    ensures
        r@ == response_of(req@),
{
    let Request { method, path, body } = req;
    match route(method, path.as_str()) {
        Route::Hello => hello(),
        Route::Root => not_found(),
        Route::Greet(name) => greeting_response(greet_user(name)),
        Route::GreetMe => greeting_response(greet_user_post(body)),
        Route::Fallback => fallback(),
    }
}

} // verus!
