//! Error handlers: what a catcher calls with the status of an error and the
//! request that ended in it.

use crate::builtin::is_default_response;
use crate::http::{Request, Response, Status};
use crate::private::Sealed;
use vstd::prelude::*;

verus! {

/// An error handler that can be cloned.
///
/// This trait cannot be implemented by hand: every [`ErrorHandler`] that is
/// `Clone` has it.
pub trait Cloneable: Sealed + Clone {
    /// Puts what `clone` gives into a box.
    fn clone_handler(&self) -> (handler: Box<Self>)
        ensures
            call_ensures(Self::clone, (self,), *handler),
    ;
}

impl<T: ErrorHandler + Clone> Cloneable for T {
    fn clone_handler(&self) -> (handler: Box<Self>) {
        Box::new(self.clone())
    }
}

/// Implemented by types that can handle errors.
///
/// Error handlers should not fail, and so should always return `Ok`; failure
/// is allowed all the same.
///
/// An impl that is not verified writes `handle` alone. A verified one writes
/// `answers` too, even where every answer will do: inside an impl that leaves it
/// out, the verifier does not look into the default.
pub trait ErrorHandler: Cloneable + Send + Sync + 'static {
    /// The handler may be called with this status and request. By default,
    /// with any.
    open spec fn accepts(&self, status: Status, req: Request) -> bool {
        true
    }

    /// The handler may give this answer to this status and request. By
    /// default, any.
    open spec fn answers(
        &self,
        status: Status,
        req: Request,
        answer: Result<Response, Status>,
    ) -> bool {
        true
    }

    /// Called when a request ended in an error with this status.
    fn handle(&self, status: Status, req: &Request) -> (answer: Result<Response, Status>)
        requires
            self.accepts(status, *req),
        ensures
            self.answers(status, *req, answer),
    ;
}

/// A function of the status and the request is an error handler.
impl<F: Clone + Sync + Send + 'static> ErrorHandler for F where
    F: Fn(Status, &Request) -> Result<Response, Status>,
 {
    open spec fn accepts(&self, status: Status, req: Request) -> bool {
        call_requires(*self, (status, &req))
    }

    open spec fn answers(
        &self,
        status: Status,
        req: Request,
        answer: Result<Response, Status>,
    ) -> bool {
        call_ensures(*self, (status, &req), answer)
    }

    fn handle(&self, status: Status, req: &Request) -> (answer: Result<Response, Status>) {
        self(status, req)
    }
}

/// The handler of the built-in catcher: it takes every error and never fails.
#[derive(Clone, Copy, Debug)]
pub struct DefaultHandler;

impl ErrorHandler for DefaultHandler {
    open spec fn accepts(&self, status: Status, req: Request) -> bool {
        true
    }

    open spec fn answers(
        &self,
        status: Status,
        req: Request,
        answer: Result<Response, Status>,
    ) -> bool {
        answer matches Ok(response) && is_default_response(status, req, response)
    }

    fn handle(&self, status: Status, req: &Request) -> (answer: Result<Response, Status>) {
        Ok(crate::builtin::default(status, req))
    }
}

} // verus!
