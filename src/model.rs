//! The abstract state of a crawl and the effect of each event on it.
use vstd::prelude::*;

verus! {

/// The lifecycle of a crawl.
#[derive(PartialEq, Eq, Structural, Debug, Clone, Copy)]
pub enum Phase {
    /// The seed is queued and nothing has been dispatched yet.
    Seeded,
    /// Work is queued, and the dispatcher is pulling it.
    Running,
    /// The queue is empty but some executions are still in flight.
    Draining,
    /// The queue is empty and nothing is in flight: the item stream closes.
    Complete,
}

/// The abstract state of a crawl.
pub struct CrawlModel<I, T> {
    /// Pending work, oldest first.
    pub queue: Seq<T>,
    /// The most entries the queue may hold.
    pub capacity: nat,
    /// One flag per worker slot: whether an execution occupies it.
    pub slots: Seq<bool>,
    /// Items routed but not yet taken by the consumer, oldest first.
    pub items: Seq<I>,
    /// Items the consumer has taken, in the order it took them.
    pub delivered: Seq<I>,
    /// Whether any execution has been dispatched.
    pub launched: bool,
    /// Whether the consumer still reads the item stream.
    pub stream_open: bool,
    /// Whether the task queue still takes entries.
    pub queue_open: bool,
}

/// Something that happens to a crawl.
pub enum Event<I, T> {
    /// The dispatcher tries to launch the oldest queued entry.
    Start,
    /// The execution in a slot routes an item.
    Item(usize, I),
    /// The execution in a slot offers a follow-up entry to the queue.
    Offer(usize, T),
    /// The execution in a slot ends, normally or by a failure.
    Finish(usize),
    /// The consumer takes the oldest routed item.
    Take,
    /// The consumer stops reading the item stream.
    Abandon,
    /// The task queue's receiving side goes away; the entries in it are dropped.
    Close,
}

/// The number of occupied slots.
pub open spec fn busy_count(slots: Seq<bool>) -> nat
    decreases slots.len(),
{
    if slots.len() == 0 {
        0
    } else {
        busy_count(slots.drop_last()) + if slots.last() { 1nat } else { 0nat }
    }
}

/// The first free slot at or after `i`, or the number of slots if none is free.
pub open spec fn first_free_from(slots: Seq<bool>, i: int) -> int
    decreases slots.len() - i,
{
    if i < 0 || i >= slots.len() {
        slots.len() as int
    } else if !slots[i] {
        i
    } else {
        first_free_from(slots, i + 1)
    }
}

/// The first free slot, or the number of slots if none is free.
pub open spec fn first_free(slots: Seq<bool>) -> int {
    first_free_from(slots, 0)
}

impl<I, T> CrawlModel<I, T> {
    /// The number of executions in flight.
    pub open spec fn in_flight(self) -> nat {
        busy_count(self.slots)
    }

    /// The concurrency limit: the number of worker slots.
    pub open spec fn limit(self) -> nat {
        self.slots.len()
    }

    /// Whether an execution occupies slot `s`.
    pub open spec fn live(self, s: int) -> bool {
        0 <= s < self.slots.len() && self.slots[s]
    }

    /// The structural bounds every reachable state keeps.
    pub open spec fn wf(self) -> bool {
        &&& self.capacity >= 1
        &&& self.slots.len() >= 1
        &&& self.queue.len() <= self.capacity
        &&& !self.queue_open ==> self.queue.len() == 0
    }

    /// Whether an item from slot `s` reaches the item stream.
    pub open spec fn takes_item(self, s: int) -> bool {
        self.live(s) && self.stream_open
    }

    /// Whether a follow-up from slot `s` enters the task queue.
    pub open spec fn takes_task(self, s: int) -> bool {
        self.live(s) && self.queue_open && self.queue.len() < self.capacity
    }

    /// Whether a follow-up from slot `s` must wait for room in the queue:
    /// the execution is live and the queue open, but full.
    pub open spec fn must_wait(self, s: int) -> bool {
        self.live(s) && self.queue_open && self.queue.len() >= self.capacity
    }

    /// Whether the crawl is over: nothing queued and nothing in flight.
    pub open spec fn complete(self) -> bool {
        self.queue.len() == 0 && self.in_flight() == 0
    }

    /// The lifecycle phase of this state.
    pub open spec fn phase(self) -> Phase {
        if self.complete() {
            Phase::Complete
        } else if !self.launched {
            Phase::Seeded
        } else if self.queue.len() == 0 {
            Phase::Draining
        } else {
            Phase::Running
        }
    }

    /// A crawl whose queue holds the seed alone.
    pub open spec fn seeded(limit: nat, capacity: nat, seed: T) -> Self {
        CrawlModel {
            queue: seq![seed],
            capacity,
            slots: Seq::new(limit, |i: int| false),
            items: Seq::empty(),
            delivered: Seq::empty(),
            launched: false,
            stream_open: true,
            queue_open: true,
        }
    }

    /// The state after event `e`. An event that cannot take effect (no free
    /// slot, a full or closed queue, an abandoned stream, a slot with no
    /// execution, nothing to take) leaves the state as it is.
    pub open spec fn step(self, e: Event<I, T>) -> Self {
        match e {
            Event::Start => {
                if self.queue.len() > 0 && first_free(self.slots) < self.slots.len() {
                    CrawlModel {
                        queue: self.queue.drop_first(),
                        slots: self.slots.update(first_free(self.slots), true),
                        launched: true,
                        ..self
                    }
                } else {
                    self
                }
            },
            Event::Item(s, i) => {
                if self.takes_item(s as int) {
                    CrawlModel { items: self.items.push(i), ..self }
                } else {
                    self
                }
            },
            Event::Offer(s, t) => {
                if self.takes_task(s as int) {
                    CrawlModel { queue: self.queue.push(t), ..self }
                } else {
                    self
                }
            },
            Event::Finish(s) => {
                if self.live(s as int) {
                    CrawlModel { slots: self.slots.update(s as int, false), ..self }
                } else {
                    self
                }
            },
            Event::Take => {
                if self.items.len() > 0 {
                    CrawlModel {
                        items: self.items.drop_first(),
                        delivered: self.delivered.push(self.items[0]),
                        ..self
                    }
                } else {
                    self
                }
            },
            Event::Abandon => CrawlModel { stream_open: false, ..self },
            Event::Close => CrawlModel { queue_open: false, queue: Seq::empty(), ..self },
        }
    }

    /// The state after a whole trace of events, in order.
    pub open spec fn run(self, trace: Seq<Event<I, T>>) -> Self
        decreases trace.len(),
    {
        if trace.len() == 0 {
            self
        } else {
            self.step(trace[0]).run(trace.drop_first())
        }
    }
}

/// Occupying or freeing one slot changes the count by one.
pub proof fn lemma_busy_count_update(slots: Seq<bool>, i: int, b: bool)
    requires
        0 <= i < slots.len(),
    ensures
        busy_count(slots.update(i, b)) + (if slots[i] { 1int } else { 0int })
            == busy_count(slots) + (if b { 1int } else { 0int }),
    decreases slots.len(),
{
    let u = slots.update(i, b);
    if i == slots.len() - 1 {
        assert(u.drop_last() =~= slots.drop_last());
    } else {
        assert(u.drop_last() =~= slots.drop_last().update(i, b));
        lemma_busy_count_update(slots.drop_last(), i, b);
    }
}

/// No more slots are occupied than there are.
pub proof fn lemma_busy_count_bound(slots: Seq<bool>)
    ensures
        busy_count(slots) <= slots.len(),
    decreases slots.len(),
{
    if slots.len() > 0 {
        lemma_busy_count_bound(slots.drop_last());
    }
}

/// With every slot free, none is counted as occupied.
pub proof fn lemma_busy_count_all_free(n: nat)
    ensures
        busy_count(Seq::new(n, |i: int| false)) == 0,
    decreases n,
{
    if n > 0 {
        let s = Seq::new(n, |i: int| false);
        assert(s.drop_last() =~= Seq::new((n - 1) as nat, |i: int| false));
        lemma_busy_count_all_free((n - 1) as nat);
    }
}

/// When every slot is occupied, all of them are counted.
pub proof fn lemma_all_busy(slots: Seq<bool>)
    requires
        slots =~= Seq::new(slots.len(), |j: int| true),
    ensures
        busy_count(slots) == slots.len(),
    decreases slots.len(),
{
    if slots.len() > 0 {
        assert(slots.drop_last() =~= Seq::new((slots.len() - 1) as nat, |j: int| true));
        lemma_all_busy(slots.drop_last());
    }
}

/// With no slot counted as occupied, no slot is occupied; with some counted,
/// some slot is occupied.
pub proof fn lemma_busy_count_zero(slots: Seq<bool>)
    ensures
        busy_count(slots) == 0 <==> forall|j: int| 0 <= j < slots.len() ==> !slots[j],
    decreases slots.len(),
{
    if slots.len() > 0 {
        lemma_busy_count_zero(slots.drop_last());
        if busy_count(slots) == 0 {
            assert forall|j: int| 0 <= j < slots.len() implies !slots[j] by {
                if j < slots.len() - 1 {
                    assert(slots[j] == slots.drop_last()[j]);
                }
            }
        } else if !slots.last() {
            let j = choose|j: int| 0 <= j < slots.drop_last().len() && slots.drop_last()[j];
            assert(slots[j]);
        }
    }
}

/// The search for a free slot finds a free slot, and there is none before it.
pub proof fn lemma_first_free_from(slots: Seq<bool>, i: int)
    requires
        0 <= i <= slots.len(),
    ensures
        i <= first_free_from(slots, i) <= slots.len(),
        first_free_from(slots, i) < slots.len() ==> !slots[first_free_from(slots, i)],
        forall|j: int| i <= j < first_free_from(slots, i) ==> slots[j],
    decreases slots.len() - i,
{
    if i < slots.len() && slots[i] {
        lemma_first_free_from(slots, i + 1);
    }
}

} // verus!
