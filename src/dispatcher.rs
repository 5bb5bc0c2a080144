//! The crawl engine: a bounded FIFO task queue, a fixed set of worker slots
//! that caps the executions in flight, the routing of handler outcomes, and an
//! unbounded item stream.
use vstd::prelude::*;
use std::collections::VecDeque;
use crate::model::{busy_count, first_free, first_free_from, CrawlModel, Event, Phase};
use crate::model::{lemma_busy_count_all_free, lemma_busy_count_bound, lemma_busy_count_update};
use crate::model::{lemma_all_busy, lemma_first_free_from};
use crate::outcome::Indeterminate;

verus! {

/// The state of one crawl. `T` is a unit of work (a pending callback), `I` a
/// finished item.
pub struct Crawl<I, T> {
    queue: VecDeque<T>,
    capacity: usize,
    slots: Vec<bool>,
    in_flight: usize,
    items: VecDeque<I>,
    launched: bool,
    stream_open: bool,
    queue_open: bool,
    delivered: Ghost<Seq<I>>,
}

/// Where routing an outcome left it.
pub enum Routing<I, T> {
    /// The outcome went where it belongs.
    Routed,
    /// The task queue is full: the producer keeps the follow-up, waits for
    /// room, and offers it again.
    Wait(T),
    /// The outcome can never be routed (the item stream or the task queue is
    /// gone, or the execution has ended): the execution stops here.
    Stop(Indeterminate<I, T>),
}

impl<I, T> View for Crawl<I, T> {
    type V = CrawlModel<I, T>;

    closed spec fn view(&self) -> CrawlModel<I, T> {
        CrawlModel {
            queue: self.queue@,
            capacity: self.capacity as nat,
            slots: self.slots@,
            items: self.items@,
            delivered: self.delivered@,
            launched: self.launched,
            stream_open: self.stream_open,
            queue_open: self.queue_open,
        }
    }
}

impl<I, T> Crawl<I, T> {
    /// The bounds that every state of a crawl keeps.
    pub closed spec fn inv(&self) -> bool {
        &&& self@.wf()
        &&& self@.limit() <= usize::MAX
        &&& self.in_flight as nat == busy_count(self.slots@)
    }

    /// What every state of a crawl keeps, for use with the laws of the model.
    pub proof fn lemma_wf(&self)
        requires
            self.inv(),
        ensures
            self@.wf(),
            self@.limit() <= usize::MAX,
    {
    }

    /// A crawl with `concurrent_requests` worker slots, a task queue of
    /// `capacity` entries, and the seed as its only pending entry.
    pub fn new(concurrent_requests: usize, capacity: usize, seed: T) -> (r: Self)
        requires
            concurrent_requests >= 1,
            capacity >= 1,
        ensures
            r.inv(),
            r@ == CrawlModel::<I, T>::seeded(concurrent_requests as nat, capacity as nat, seed),
            r@.in_flight() == 0,
    {
        let mut slots: Vec<bool> = Vec::new();
        let mut n: usize = 0;
        while n < concurrent_requests
            invariant
                n <= concurrent_requests,
                concurrent_requests <= usize::MAX,
                slots@ =~= Seq::new(n as nat, |i: int| false),
            decreases concurrent_requests - n,
        {
            slots.push(false);
            n = n + 1;
        }
        let mut queue: VecDeque<T> = VecDeque::new();
        queue.push_back(seed);
        proof {
            lemma_busy_count_all_free(concurrent_requests as nat);
            assert(queue@ =~= seq![seed]);
        }
        Crawl {
            queue,
            capacity,
            slots,
            in_flight: 0,
            items: VecDeque::new(),
            launched: false,
            stream_open: true,
            queue_open: true,
            delivered: Ghost(Seq::empty()),
        }
    }

    /// Launches the oldest queued entry into the first free worker slot, and
    /// hands back that slot and the entry. `None` when the queue is empty or
    /// every slot is occupied; then nothing changes.
    pub fn start_next(&mut self) -> (r: Option<(usize, T)>)
        requires
            old(self).inv(),
        ensures
            final(self).inv(),
            final(self)@ == old(self)@.step(Event::Start),
            r is Some <==> (old(self)@.queue.len() > 0 && old(self)@.in_flight() < old(self)@.limit()),
            r matches Some((s, t)) ==> {
                &&& s as int == first_free(old(self)@.slots)
                &&& s < old(self)@.limit()
                &&& forall|j: int| 0 <= j < s ==> old(self)@.live(j)
                &&& t == old(self)@.queue[0]
                &&& !old(self)@.live(s as int)
                &&& final(self)@.live(s as int)
                &&& final(self)@.in_flight() == old(self)@.in_flight() + 1
                &&& final(self)@ == (CrawlModel {
                    queue: old(self)@.queue.drop_first(),
                    slots: old(self)@.slots.update(s as int, true),
                    launched: true,
                    ..old(self)@
                })
            },
            r is None ==> final(self)@ == old(self)@,
    {
        let ghost m = self@;
        let mut i: usize = 0;
        while i < self.slots.len() && self.slots[i]
            invariant
                self@ == m,
                0 <= i <= self.slots@.len(),
                first_free(m.slots) == first_free_from(m.slots, i as int),
                forall|j: int| 0 <= j < i ==> m.slots[j],
            decreases self.slots@.len() - i,
        {
            i = i + 1;
        }
        proof {
            lemma_first_free_from(m.slots, i as int);
            lemma_busy_count_bound(m.slots);
        }
        if i == self.slots.len() {
            proof {
                assert(m.slots =~= Seq::new(m.slots.len(), |j: int| true));
                lemma_all_busy(m.slots);
            }
            return None;
        }
        proof {
            lemma_busy_count_update(m.slots, i as int, true);
            lemma_busy_count_bound(m.slots.update(i as int, true));
        }
        if self.queue.len() == 0 {
            return None;
        }
        let t = self.queue.pop_front().unwrap();
        self.slots.set(i, true);
        self.in_flight = self.in_flight + 1;
        self.launched = true;
        proof {
            assert(self@.queue =~= m.queue.drop_first());
        }
        Some((i, t))
    }

    /// Routes one item from the execution in slot `slot` to the item stream.
    /// Refused, and the item handed back, when no execution occupies the slot
    /// or the consumer has left.
    pub fn emit(&mut self, slot: usize, item: I) -> (r: Result<(), I>)
        requires
            old(self).inv(),
        ensures
            final(self).inv(),
            final(self)@ == old(self)@.step(Event::Item(slot, item)),
            r is Ok <==> old(self)@.takes_item(slot as int),
            r matches Err(back) ==> back == item,
    {
        if slot < self.slots.len() && self.slots[slot] && self.stream_open {
            self.items.push_back(item);
            Ok(())
        } else {
            Err(item)
        }
    }

    /// Offers a follow-up entry from the execution in slot `slot` to the task
    /// queue. Refused, and the entry handed back, when the queue is full (the
    /// producer waits for room and offers it again), when the queue is
    /// closed, or when no execution occupies the slot.
    pub fn offer(&mut self, slot: usize, task: T) -> (r: Result<(), T>)
        requires
            old(self).inv(),
        ensures
            final(self).inv(),
            final(self)@ == old(self)@.step(Event::Offer(slot, task)),
            r is Ok <==> old(self)@.takes_task(slot as int),
            r matches Err(back) ==> back == task,
    {
        if slot < self.slots.len() && self.slots[slot] && self.queue_open && self.queue.len()
            < self.capacity {
            self.queue.push_back(task);
            Ok(())
        } else {
            Err(task)
        }
    }

    /// Routes one outcome of the execution in slot `slot`: an item to the item
    /// stream, a callback to the task queue. A follow-up that meets a full
    /// queue comes back to wait; an outcome that can never be routed comes
    /// back to stop the execution.
    pub fn route(&mut self, slot: usize, outcome: Indeterminate<I, T>) -> (r: Routing<I, T>)
        requires
            old(self).inv(),
        ensures
            final(self).inv(),
            final(self)@ == old(self)@.step(event_of(slot, outcome)),
            r is Routed <==> accepts(old(self)@, slot, outcome),
            r is Wait <==> (outcome is Callback && old(self)@.must_wait(slot as int)),
            r matches Routing::Wait(t) ==> outcome == Indeterminate::<I, T>::Callback(t),
            r matches Routing::Stop(back) ==> back == outcome,
    {
        match outcome {
            Indeterminate::Item(item) => match self.emit(slot, item) {
                Ok(()) => Routing::Routed,
                Err(back) => Routing::Stop(Indeterminate::Item(back)),
            },
            Indeterminate::Callback(task) => {
                let wait = self.is_live(slot) && self.queue_open && self.queue.len() >= self.capacity;
                match self.offer(slot, task) {
                    Ok(()) => Routing::Routed,
                    Err(back) => if wait {
                        Routing::Wait(back)
                    } else {
                        Routing::Stop(Indeterminate::Callback(back))
                    },
                }
            },
        }
    }

    /// The consumer stops reading the item stream: from now on every item is
    /// refused.
    pub fn abandon(&mut self)
        requires
            old(self).inv(),
        ensures
            final(self).inv(),
            final(self)@ == old(self)@.step(Event::Abandon),
    {
        self.stream_open = false;
    }

    /// The task queue's receiving side goes away: the entries in it are
    /// dropped, and from now on every follow-up is refused.
    pub fn close_queue(&mut self)
        requires
            old(self).inv(),
        ensures
            final(self).inv(),
            final(self)@ == old(self)@.step(Event::Close),
    {
        self.queue_open = false;
        self.queue.clear();
        assert(self.queue@ =~= Seq::<T>::empty());
    }

    /// Whether the consumer still reads the item stream.
    pub fn is_stream_open(&self) -> (r: bool)
        ensures
            r == self@.stream_open,
    {
        self.stream_open
    }

    /// Ends the execution in slot `slot`, whether it finished its outcomes or
    /// failed, and frees the slot. Returns whether an execution occupied it.
    pub fn finish(&mut self, slot: usize) -> (r: bool)
        requires
            old(self).inv(),
        ensures
            final(self).inv(),
            final(self)@ == old(self)@.step(Event::Finish(slot)),
            r == old(self)@.live(slot as int),
            r ==> final(self)@.in_flight() + 1 == old(self)@.in_flight(),
    {
        if slot < self.slots.len() && self.slots[slot] {
            proof {
                lemma_busy_count_update(self.slots@, slot as int, false);
            }
            self.slots.set(slot, false);
            self.in_flight = self.in_flight - 1;
            true
        } else {
            false
        }
    }

    /// Takes the oldest item from the item stream, if any.
    pub fn take_item(&mut self) -> (r: Option<I>)
        requires
            old(self).inv(),
        ensures
            final(self).inv(),
            final(self)@ == old(self)@.step(Event::Take),
            r is Some <==> old(self)@.items.len() > 0,
            r matches Some(i) ==> i == old(self)@.items[0],
    {
        let r = self.items.pop_front();
        proof {
            if r is Some {
                self.delivered@ = self.delivered@.push(r->0);
            }
        }
        r
    }

    /// Whether the crawl is over: nothing queued and nothing in flight.
    pub fn is_complete(&self) -> (r: bool)
        requires
            self.inv(),
        ensures
            r == self@.complete(),
    {
        self.queue.len() == 0 && self.in_flight == 0
    }

    /// Whether the item stream has ended: the crawl is over and every item
    /// has been taken.
    pub fn is_exhausted(&self) -> (r: bool)
        requires
            self.inv(),
        ensures
            r == (self@.complete() && self@.items.len() == 0),
    {
        self.is_complete() && self.items.len() == 0
    }

    /// The lifecycle phase of the crawl.
    pub fn phase(&self) -> (r: Phase)
        requires
            self.inv(),
        ensures
            r == self@.phase(),
    {
        if self.is_complete() {
            Phase::Complete
        } else if !self.launched {
            Phase::Seeded
        } else if self.queue.len() == 0 {
            Phase::Draining
        } else {
            Phase::Running
        }
    }

    /// Whether an execution occupies slot `slot`.
    pub fn is_live(&self, slot: usize) -> (r: bool)
        ensures
            r == self@.live(slot as int),
    {
        slot < self.slots.len() && self.slots[slot]
    }

    /// The number of executions in flight.
    pub fn in_flight(&self) -> (r: usize)
        requires
            self.inv(),
        ensures
            r == self@.in_flight(),
    {
        self.in_flight
    }

    /// The concurrency limit.
    pub fn concurrency_limit(&self) -> (r: usize)
        ensures
            r == self@.limit(),
    {
        self.slots.len()
    }

    /// The most entries the task queue may hold.
    pub fn capacity(&self) -> (r: usize)
        ensures
            r == self@.capacity,
    {
        self.capacity
    }

    /// The number of entries waiting in the task queue.
    pub fn queued(&self) -> (r: usize)
        ensures
            r == self@.queue.len(),
    {
        self.queue.len()
    }

    /// The number of items routed and not yet taken.
    pub fn buffered_items(&self) -> (r: usize)
        ensures
            r == self@.items.len(),
    {
        self.items.len()
    }
}

/// The event that routing `outcome` from slot `slot` stands for.
pub open spec fn event_of<I, T>(slot: usize, outcome: Indeterminate<I, T>) -> Event<I, T> {
    match outcome {
        Indeterminate::Item(i) => Event::Item(slot, i),
        Indeterminate::Callback(t) => Event::Offer(slot, t),
    }
}

/// Whether routing `outcome` from slot `slot` takes effect in state `m`.
pub open spec fn accepts<I, T>(m: CrawlModel<I, T>, slot: usize, outcome: Indeterminate<I, T>) -> bool {
    match outcome {
        Indeterminate::Item(_) => m.takes_item(slot as int),
        Indeterminate::Callback(_) => m.takes_task(slot as int),
    }
}

} // verus!
