//! Properties of the service as a whole, stated over `response_of`, the
//! response that `router::respond` is proved to return.
use vstd::prelude::*;

use crate::error::message_of;
use crate::model::{greeting_view, text_view, ResponseView};
use crate::router::{response_of, Method, RequestView};

verus! {

/// GET `/greet/{s}`, for any non-empty segment `s`, answers 200 with the
/// greeting `{"greet": "Hello", "name": s}`, whatever the body.
pub proof fn greet_path_greets_segment(s: Seq<char>, body: Option<(Seq<char>, Seq<char>)>)
    requires
        s.len() > 0,
        !s.contains('/'),
    ensures
        response_of(RequestView { method: Method::Get, path: "/greet/"@ + s, body })
            == greeting_view("Hello"@, s),
{
    reveal_strlit("/greet/");
    reveal_strlit("/hello");
    reveal_strlit("/");
    let path = "/greet/"@ + s;
    assert(path.subrange(0, 7) =~= "/greet/"@);
    assert(path.subrange(7, path.len() as int) =~= s);
    assert(path.len() != "/hello"@.len());
    assert(path.len() != "/"@.len());
}

/// GET `/hello` answers 200 with the text `Hello, World!`, whatever the body.
pub proof fn hello_ignores_input(body: Option<(Seq<char>, Seq<char>)>)
    ensures
        response_of(RequestView { method: Method::Get, path: "/hello"@, body })
            == text_view(200, "Hello, World!"@),
{
}

/// The service keeps no state: requests with the same content receive
/// responses with the same content, however often they are repeated.
pub proof fn same_request_same_response(
    first: RequestView,
    again: RequestView,
    r1: ResponseView,
    r2: ResponseView,
)
    requires
        first == again,
        r1 == response_of(first),
        r2 == response_of(again),
    ensures
        r1 == r2,
{
}

/// Every response is a greeting as JSON with status 200, a validation error
/// with status 400 and its message, or one of the two fixed 404 texts.
pub proof fn responses_have_expected_shape(req: RequestView)
    ensures
        ({
            let r = response_of(req);
            ||| (r.status == 200 && r.body is Json)
            ||| (r.status == 200 && r == text_view(200, "Hello, World!"@))
            ||| (exists|e| r == text_view(400, message_of(e)))
            ||| r == text_view(404, "404 page not found"@)
            ||| r == text_view(404, "Empty Response!"@)
        }),
{
}

} // verus!
