use greeter::error::ServerError;
use greeter::handlers::{fallback, greet_user, greet_user_post, hello, not_found};
use greeter::model::{Body, Greet, GreetMe, Response};
use greeter::router::{respond, route, Method, Request, Route};

fn request(method: Method, path: &str, body: Option<GreetMe>) -> Request {
    Request { method, path: path.to_string(), body }
}

fn payload(input: &str, name: &str) -> Option<GreetMe> {
    Some(GreetMe { input: input.to_string(), name: name.to_string() })
}

fn text(status: u16, t: &str) -> Response {
    Response { status, body: Body::Text(t.to_string()) }
}

fn greeting(greet: &str, name: &str) -> Response {
    Response {
        status: 200,
        body: Body::Json(Greet { greet: greet.to_string(), name: name.to_string() }),
    }
}

#[test]
fn greet_path_returns_greeting() {
    for s in ["Bob", "a", "Jörg", "two words", "x-y_z.1"] {
        let path = format!("/greet/{}", s);
        assert_eq!(respond(request(Method::Get, &path, None)), greeting("Hello", s));
    }
}

#[test]
fn greet_path_ignores_body() {
    let r = respond(request(Method::Get, "/greet/Ann", payload("Hi", "Bob")));
    assert_eq!(r, greeting("Hello", "Ann"));
}

#[test]
fn greet_empty_segment_is_missing_name() {
    let r = respond(request(Method::Get, "/greet/", None));
    assert_eq!(r, text(400, "Name parameter not provided."));
}

#[test]
fn greet_with_two_segments_falls_back() {
    let r = respond(request(Method::Get, "/greet/a/b", None));
    assert_eq!(r, text(404, "Empty Response!"));
}

#[test]
fn greet_without_slash_falls_back() {
    let r = respond(request(Method::Get, "/greet", None));
    assert_eq!(r, text(404, "Empty Response!"));
}

#[test]
fn post_greetme_greets_with_input() {
    let r = respond(request(Method::Post, "/greetme", payload("Hi", "Bob")));
    assert_eq!(r, greeting("Hi", "Bob"));
}

#[test]
fn post_greetme_empty_input_is_invalid() {
    let r = respond(request(Method::Post, "/greetme", payload("", "Bob")));
    assert_eq!(r, text(400, "Invalid request payload."));
}

#[test]
fn post_greetme_empty_name_is_invalid() {
    let r = respond(request(Method::Post, "/greetme", payload("Hi", "")));
    assert_eq!(r, text(400, "Invalid request payload."));
}

#[test]
fn post_greetme_both_empty_is_invalid() {
    let r = respond(request(Method::Post, "/greetme", payload("", "")));
    assert_eq!(r, text(400, "Invalid request payload."));
}

#[test]
fn post_greetme_without_body_is_invalid() {
    let r = respond(request(Method::Post, "/greetme", None));
    assert_eq!(r, text(400, "Invalid request payload."));
}

#[test]
fn get_greetme_falls_back() {
    let r = respond(request(Method::Get, "/greetme", payload("Hi", "Bob")));
    assert_eq!(r, text(404, "Empty Response!"));
}

#[test]
fn hello_ignores_input() {
    let expected = text(200, "Hello, World!");
    assert_eq!(respond(request(Method::Get, "/hello", None)), expected);
    assert_eq!(respond(request(Method::Get, "/hello", payload("Hi", "Bob"))), expected);
    assert_eq!(respond(request(Method::Get, "/hello", payload("", ""))), expected);
}

#[test]
fn post_hello_falls_back() {
    let r = respond(request(Method::Post, "/hello", None));
    assert_eq!(r, text(404, "Empty Response!"));
}

#[test]
fn nonexistent_path_falls_back() {
    let r = respond(request(Method::Get, "/nonexistent-path", None));
    assert_eq!(r, text(404, "Empty Response!"));
}

#[test]
fn other_method_falls_back() {
    for path in ["/hello", "/", "/greet/Bob", "/greetme"] {
        let r = respond(request(Method::Other, path, None));
        assert_eq!(r, text(404, "Empty Response!"));
    }
}

#[test]
fn root_is_not_found() {
    let r = respond(request(Method::Get, "/", None));
    assert_eq!(r, text(404, "404 page not found"));
    assert_ne!(r, respond(request(Method::Get, "/nonexistent-path", None)));
}

#[test]
fn empty_path_falls_back() {
    let r = respond(request(Method::Get, "", None));
    assert_eq!(r, text(404, "Empty Response!"));
}

#[test]
fn repeated_requests_are_identical() {
    let requests = vec![
        request(Method::Get, "/greet/Bob", None),
        request(Method::Get, "/greet/", None),
        request(Method::Post, "/greetme", payload("Hi", "Bob")),
        request(Method::Post, "/greetme", payload("", "Bob")),
        request(Method::Post, "/greetme", None),
        request(Method::Get, "/hello", None),
        request(Method::Get, "/nonexistent-path", None),
        request(Method::Get, "/", None),
    ];
    for req in requests {
        let first = respond(req.clone());
        for _ in 0..5 {
            assert_eq!(respond(req.clone()), first);
        }
    }
}

#[test]
fn route_selects_handler() {
    assert_eq!(route(Method::Get, "/hello"), Route::Hello);
    assert_eq!(route(Method::Get, "/"), Route::Root);
    assert_eq!(route(Method::Get, "/greet/Bob"), Route::Greet("Bob".to_string()));
    assert_eq!(route(Method::Get, "/greet/"), Route::Greet(String::new()));
    assert_eq!(route(Method::Post, "/greetme"), Route::GreetMe);
    assert_eq!(route(Method::Get, "/hello/"), Route::Fallback);
    assert_eq!(route(Method::Get, "/Hello"), Route::Fallback);
    assert_eq!(route(Method::Post, "/greet/Bob"), Route::Fallback);
}

#[test]
fn error_messages() {
    assert_eq!(ServerError::MissingName.message(), "Name parameter not provided.");
    assert_eq!(ServerError::InvalidPayload.message(), "Invalid request payload.");
}

#[test]
fn errors_become_bad_requests() {
    assert_eq!(
        ServerError::MissingName.into_response(),
        text(400, "Name parameter not provided.")
    );
    assert_eq!(
        ServerError::InvalidPayload.into_response(),
        text(400, "Invalid request payload.")
    );
}

#[test]
fn greet_user_outcomes() {
    assert_eq!(greet_user(String::new()), Err(ServerError::MissingName));
    assert_eq!(
        greet_user("Bob".to_string()),
        Ok(Greet { greet: "Hello".to_string(), name: "Bob".to_string() })
    );
}

#[test]
fn greet_user_post_outcomes() {
    assert_eq!(greet_user_post(None), Err(ServerError::InvalidPayload));
    assert_eq!(greet_user_post(payload("", "Bob")), Err(ServerError::InvalidPayload));
    assert_eq!(greet_user_post(payload("Hi", "")), Err(ServerError::InvalidPayload));
    assert_eq!(
        greet_user_post(payload("Hi", "Bob")),
        Ok(Greet { greet: "Hi".to_string(), name: "Bob".to_string() })
    );
}

#[test]
fn fixed_responders() {
    assert_eq!(hello(), text(200, "Hello, World!"));
    assert_eq!(not_found(), text(404, "404 page not found"));
    assert_eq!(fallback(), text(404, "Empty Response!"));
}
