//! A unit of work: a request, the handler of its response, and the context
//! handed to that handler.
use vstd::prelude::*;

verus! {

/// A request bound to the handler of its response and the context that the
/// handler receives. It is built once, run once, and not changed in between.
pub struct Callback<R, H, C> {
    request: R,
    handler: H,
    context: C,
}

impl<R, H, C> Callback<R, H, C> {
    /// The request.
    pub closed spec fn spec_request(&self) -> R {
        self.request
    }

    /// The handler.
    pub closed spec fn spec_handler(&self) -> H {
        self.handler
    }

    /// The context.
    pub closed spec fn spec_context(&self) -> C {
        self.context
    }

    /// A callback that sends `request` and hands the response and `context`
    /// to `handler`.
    pub fn new(handler: H, request: R, context: C) -> (r: Self)
        ensures
            r.spec_request() == request,
            r.spec_handler() == handler,
            r.spec_context() == context,
    {
        Callback { request, handler, context }
    }

    /// The request that running this callback sends.
    pub fn target(&self) -> (r: &R)
        ensures
            *r == self.spec_request(),
    {
        &self.request
    }

    /// The handler that receives the response.
    pub fn handler(&self) -> (r: &H)
        ensures
            *r == self.spec_handler(),
    {
        &self.handler
    }

    /// Takes the callback apart, to run it.
    pub fn into_parts(self) -> (r: (R, H, C))
        ensures
            r.0 == self.spec_request(),
            r.1 == self.spec_handler(),
            r.2 == self.spec_context(),
    {
        (self.request, self.handler, self.context)
    }
}

} // verus!
