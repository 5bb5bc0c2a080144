use vstd::prelude::*;

verus! {

/// What a handler produces: a finished item, or a follow-up unit of work.
pub enum Indeterminate<I, K> {
    /// A parsed item, bound for the item stream.
    Item(I),
    /// A callback to be run, bound for the task queue.
    Callback(K),
}

impl<I, K> Indeterminate<I, K> {
    /// Wraps a finished item.
    pub fn from_item(item: I) -> (r: Self)
        ensures
            r == Indeterminate::<I, K>::Item(item),
    {
        Indeterminate::Item(item)
    }

    /// Wraps a follow-up callback.
    pub fn from_callback(callback: K) -> (r: Self)
        ensures
            r == Indeterminate::<I, K>::Callback(callback),
    {
        Indeterminate::Callback(callback)
    }

    /// Whether this outcome is a finished item.
    pub fn is_item(&self) -> (r: bool)
        ensures
            r == (*self is Item),
    {
        match self {
            Indeterminate::Item(_) => true,
            Indeterminate::Callback(_) => false,
        }
    }
}

} // verus!

verus! {

/// Why one execution of a callback stopped early. Such a failure is local to
/// that execution: the crawl goes on without its branch.
pub enum ExecutionError<E, I, K> {
    /// The network operation failed; no outcome was produced.
    TransportFailure(E),
    /// The item stream refused this item.
    ItemSinkFailure(I),
    /// The task queue refused this follow-up.
    QueueSinkFailure(K),
}

impl<E, I, K> ExecutionError<E, I, K> {
    /// The failure of an outcome that routing refused, carrying the outcome.
    pub fn refused(outcome: Indeterminate<I, K>) -> (r: Self)
        ensures
            outcome matches Indeterminate::Item(i) ==> r == ExecutionError::<E, I, K>::ItemSinkFailure(i),
            outcome matches Indeterminate::Callback(k) ==> r == ExecutionError::<E, I, K>::QueueSinkFailure(k),
    {
        match outcome {
            Indeterminate::Item(i) => ExecutionError::ItemSinkFailure(i),
            Indeterminate::Callback(k) => ExecutionError::QueueSinkFailure(k),
        }
    }

    /// A short description of the kind of failure.
    pub fn kind(&self) -> (r: &'static str)
        ensures
            self is TransportFailure ==> r@ == "transport failure"@,
            self is ItemSinkFailure ==> r@ == "item sink failure"@,
            self is QueueSinkFailure ==> r@ == "queue sink failure"@,
    {
        match self {
            ExecutionError::TransportFailure(_) => "transport failure",
            ExecutionError::ItemSinkFailure(_) => "item sink failure",
            ExecutionError::QueueSinkFailure(_) => "queue sink failure",
        }
    }
}

} // verus!
