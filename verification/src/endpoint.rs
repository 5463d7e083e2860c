//! What it takes to handle a request.

use crate::error::Error;
use crate::request::Request;
use vstd::prelude::*;

verus! {

/// A handler: it takes a request and gives an output or fails.
///
/// A handler says in `answers` which results it may give to which request.
/// This is a relation and no function, so that a handler is free to answer
/// one request in different ways at different times. A handler that says
/// nothing may give any result. Whatever wraps a handler states its own
/// answers over those of the handler inside.
pub trait Endpoint {
    /// What the handler gives when it succeeds.
    type Output;

    /// Whether `res` is a result that this handler may give to `req`.
    open spec fn answers(&self, req: Request, res: Result<Self::Output, Error>) -> bool {
        true
    }

    /// Handles the request.
    fn call(&self, req: Request) -> (res: Result<Self::Output, Error>)
        ensures
            self.answers(req, res),
    ;
}

} // verus!
