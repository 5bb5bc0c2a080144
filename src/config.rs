//! The parameters of a crawl, fixed before it starts.
use vstd::prelude::*;
use crate::callback::Callback;
use crate::dispatcher::Crawl;
use crate::model::CrawlModel;

verus! {

/// The concurrency limit when none is set.
pub const DEFAULT_CONCURRENT_REQUESTS: usize = 20;

/// The task queue's byte budget when none is set.
pub const DEFAULT_TASK_QUEUE_SIZE_BYTES: usize = 10_000_000;

/// The number of entries a task queue of `budget` bytes holds, for entries
/// of `entry_size` bytes each: never less than one.
pub open spec fn capacity_of(budget: nat, entry_size: nat) -> nat
    recommends
        entry_size > 0,
{
    if budget / entry_size >= 1 {
        budget / entry_size
    } else {
        1
    }
}

/// The number of entries that a byte budget holds, and at least one.
pub fn task_queue_capacity(budget: usize, entry_size: usize) -> (r: usize)
    requires
        entry_size >= 1,
    ensures
        r == capacity_of(budget as nat, entry_size as nat),
        r >= 1,
{
    let c = budget / entry_size;
    if c >= 1 {
        c
    } else {
        1
    }
}

/// Collects the parameters of a [`Web`]: the initial request, its handler and
/// context are required; the concurrency limit and the queue's byte budget
/// have defaults.
pub struct WebBuilder<R, H, C> {
    start: Option<R>,
    handler: Option<H>,
    context: Option<C>,
    concurrent_requests: Option<usize>,
    task_queue_size_bytes: Option<usize>,
}

impl<R, H, C> WebBuilder<R, H, C> {
    /// The initial request set so far.
    pub closed spec fn spec_start(&self) -> Option<R> {
        self.start
    }

    /// The initial handler set so far.
    pub closed spec fn spec_handler(&self) -> Option<H> {
        self.handler
    }

    /// The initial context set so far.
    pub closed spec fn spec_context(&self) -> Option<C> {
        self.context
    }

    /// The concurrency limit set so far.
    pub closed spec fn spec_concurrent_requests(&self) -> Option<usize> {
        self.concurrent_requests
    }

    /// The byte budget set so far.
    pub closed spec fn spec_task_queue_size_bytes(&self) -> Option<usize> {
        self.task_queue_size_bytes
    }

    /// A builder with nothing set.
    pub fn new() -> (r: Self)
        ensures
            r.spec_start() is None,
            r.spec_handler() is None,
            r.spec_context() is None,
            r.spec_concurrent_requests() is None,
            r.spec_task_queue_size_bytes() is None,
    {
        WebBuilder {
            start: None,
            handler: None,
            context: None,
            concurrent_requests: None,
            task_queue_size_bytes: None,
        }
    }

    /// Sets the initial request.
    pub fn start(self, start: R) -> (r: Self)
        ensures
            r.spec_start() == Some(start),
            r.spec_handler() == self.spec_handler(),
            r.spec_context() == self.spec_context(),
            r.spec_concurrent_requests() == self.spec_concurrent_requests(),
            r.spec_task_queue_size_bytes() == self.spec_task_queue_size_bytes(),
    {
        WebBuilder { start: Some(start), ..self }
    }

    /// Sets the handler of the initial request.
    pub fn handler(self, handler: H) -> (r: Self)
        ensures
            r.spec_start() == self.spec_start(),
            r.spec_handler() == Some(handler),
            r.spec_context() == self.spec_context(),
            r.spec_concurrent_requests() == self.spec_concurrent_requests(),
            r.spec_task_queue_size_bytes() == self.spec_task_queue_size_bytes(),
    {
        WebBuilder { handler: Some(handler), ..self }
    }

    /// Sets the initial context.
    pub fn context(self, context: C) -> (r: Self)
        ensures
            r.spec_start() == self.spec_start(),
            r.spec_handler() == self.spec_handler(),
            r.spec_context() == Some(context),
            r.spec_concurrent_requests() == self.spec_concurrent_requests(),
            r.spec_task_queue_size_bytes() == self.spec_task_queue_size_bytes(),
    {
        WebBuilder { context: Some(context), ..self }
    }

    /// Sets the most executions that may be in flight at once.
    pub fn concurrent_requests(self, concurrent_requests: usize) -> (r: Self)
        requires
            concurrent_requests >= 1,
        ensures
            r.spec_start() == self.spec_start(),
            r.spec_handler() == self.spec_handler(),
            r.spec_context() == self.spec_context(),
            r.spec_concurrent_requests() == Some(concurrent_requests),
            r.spec_task_queue_size_bytes() == self.spec_task_queue_size_bytes(),
    {
        WebBuilder { concurrent_requests: Some(concurrent_requests), ..self }
    }

    /// Sets the byte budget of the task queue.
    pub fn task_queue_size_bytes(self, task_queue_size_bytes: usize) -> (r: Self)
        requires
            task_queue_size_bytes >= 1,
        ensures
            r.spec_start() == self.spec_start(),
            r.spec_handler() == self.spec_handler(),
            r.spec_context() == self.spec_context(),
            r.spec_concurrent_requests() == self.spec_concurrent_requests(),
            r.spec_task_queue_size_bytes() == Some(task_queue_size_bytes),
    {
        WebBuilder { task_queue_size_bytes: Some(task_queue_size_bytes), ..self }
    }

    /// Whether the initial request is set.
    pub fn has_start(&self) -> (r: bool)
        ensures
            r == self.spec_start() is Some,
    {
        self.start.is_some()
    }

    /// Whether the initial handler is set.
    pub fn has_handler(&self) -> (r: bool)
        ensures
            r == self.spec_handler() is Some,
    {
        self.handler.is_some()
    }

    /// Whether the initial context is set.
    pub fn has_context(&self) -> (r: bool)
        ensures
            r == self.spec_context() is Some,
    {
        self.context.is_some()
    }

    /// Builds the [`Web`] from the request, handler and context, which must
    /// all be set. Unset limits take their defaults.
    pub fn build(self) -> (w: Web<R, H, C>)
        requires
            self.spec_start() is Some,
            self.spec_handler() is Some,
            self.spec_context() is Some,
            self.spec_concurrent_requests() matches Some(n) ==> n >= 1,
            self.spec_task_queue_size_bytes() matches Some(n) ==> n >= 1,
        ensures
            Some(w.spec_start()) == self.spec_start(),
            Some(w.spec_handler()) == self.spec_handler(),
            Some(w.spec_context()) == self.spec_context(),
            w.spec_concurrent_requests() == match self.spec_concurrent_requests() {
                Some(n) => n,
                None => DEFAULT_CONCURRENT_REQUESTS,
            },
            w.spec_task_queue_size_bytes() == match self.spec_task_queue_size_bytes() {
                Some(n) => n,
                None => DEFAULT_TASK_QUEUE_SIZE_BYTES,
            },
            w.spec_concurrent_requests() >= 1,
            w.spec_task_queue_size_bytes() >= 1,
    {
        let concurrent_requests = match self.concurrent_requests {
            Some(n) => n,
            None => DEFAULT_CONCURRENT_REQUESTS,
        };
        let task_queue_size_bytes = match self.task_queue_size_bytes {
            Some(n) => n,
            None => DEFAULT_TASK_QUEUE_SIZE_BYTES,
        };
        Web {
            start: self.start.unwrap(),
            handler: self.handler.unwrap(),
            context: self.context.unwrap(),
            concurrent_requests,
            task_queue_size_bytes,
        }
    }
}

/// The parameters of one crawl: the seed's request, handler and context, the
/// concurrency limit, and the task queue's byte budget. Both limits are at
/// least one.
pub struct Web<R, H, C> {
    start: R,
    handler: H,
    context: C,
    concurrent_requests: usize,
    task_queue_size_bytes: usize,
}

impl<R, H, C> Web<R, H, C> {
    /// The initial request.
    pub closed spec fn spec_start(&self) -> R {
        self.start
    }

    /// The initial handler.
    pub closed spec fn spec_handler(&self) -> H {
        self.handler
    }

    /// The initial context.
    pub closed spec fn spec_context(&self) -> C {
        self.context
    }

    /// The concurrency limit.
    pub closed spec fn spec_concurrent_requests(&self) -> usize {
        self.concurrent_requests
    }

    /// The task queue's byte budget.
    pub closed spec fn spec_task_queue_size_bytes(&self) -> usize {
        self.task_queue_size_bytes
    }

    /// The most executions that may be in flight at once.
    pub fn concurrent_requests(&self) -> (r: usize)
        ensures
            r == self.spec_concurrent_requests(),
    {
        self.concurrent_requests
    }

    /// The byte budget of the task queue.
    pub fn task_queue_size_bytes(&self) -> (r: usize)
        ensures
            r == self.spec_task_queue_size_bytes(),
    {
        self.task_queue_size_bytes
    }

    /// Splits the web into the seed callback, made of the initial request,
    /// handler and context, and a [`CrawlLimits`] that keeps its two limits.
    pub fn into_parts(self) -> (r: (Callback<R, H, C>, CrawlLimits))
        ensures
            r.0.spec_request() == self.spec_start(),
            r.0.spec_handler() == self.spec_handler(),
            r.0.spec_context() == self.spec_context(),
            r.1.concurrent_requests == self.spec_concurrent_requests(),
            r.1.task_queue_size_bytes == self.spec_task_queue_size_bytes(),
    {
        let limits = CrawlLimits {
            concurrent_requests: self.concurrent_requests,
            task_queue_size_bytes: self.task_queue_size_bytes,
        };
        (Callback::new(self.handler, self.start, self.context), limits)
    }
}

/// The two limits of a crawl.
#[derive(Clone, Copy, Debug, PartialEq, Eq, Structural)]
pub struct CrawlLimits {
    pub concurrent_requests: usize,
    pub task_queue_size_bytes: usize,
}

impl CrawlLimits {
    /// Starts a crawl with `seed` as its only pending entry, for queue
    /// entries of `entry_size` bytes. The seed is handed back only when the
    /// concurrency limit is zero.
    pub fn launch<I, T>(&self, entry_size: usize, seed: T) -> (r: Result<Crawl<I, T>, T>)
        requires
            entry_size >= 1,
        ensures
            r is Ok <==> self.concurrent_requests >= 1,
            r matches Ok(c) ==> {
                &&& c.inv()
                &&& c@ == CrawlModel::<I, T>::seeded(
                    self.concurrent_requests as nat,
                    capacity_of(self.task_queue_size_bytes as nat, entry_size as nat),
                    seed,
                )
                &&& c@.in_flight() == 0
            },
            r matches Err(back) ==> back == seed,
    {
        if self.concurrent_requests == 0 {
            return Err(seed);
        }
        let capacity = task_queue_capacity(self.task_queue_size_bytes, entry_size);
        Ok(Crawl::new(self.concurrent_requests, capacity, seed))
    }
}

} // verus!
