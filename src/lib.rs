//! A small HTTP greeting service: a router that maps a request to one of a
//! fixed set of handlers, the handlers themselves, and the mapping of
//! validation errors to responses. Everything here is pure: the HTTP
//! transport that feeds requests in and writes responses out lives outside.
use vstd::prelude::*;

pub mod error;
pub mod handlers;
pub mod laws;
pub mod model;
pub mod router;

verus! {

} // verus!
