//! A handler made of a plain function and the name it is known by.
use vstd::prelude::*;

verus! {

/// A handler made of a function and its display name.
pub struct HandlerImpl<F> {
    function: F,
    function_name: &'static str,
}

impl<F> HandlerImpl<F> {
    /// The function this handler runs.
    pub closed spec fn spec_function(&self) -> F {
        self.function
    }

    /// The name this handler is known by.
    pub closed spec fn spec_name(&self) -> Seq<char> {
        self.function_name@
    }

    /// A handler that runs `function`, known as `function_name`.
    pub fn new(function: F, function_name: &'static str) -> (r: Self)
        ensures
            r.spec_function() == function,
            r.spec_name() == function_name@,
    {
        HandlerImpl { function, function_name }
    }

    /// The function this handler runs.
    pub fn function(&self) -> (r: &F)
        ensures
            *r == self.spec_function(),
    {
        &self.function
    }

    /// The name this handler is known by, for diagnostics.
    pub fn name(&self) -> (r: &'static str)
        ensures
            r@ == self.spec_name(),
    {
        self.function_name
    }
}

} // verus!
