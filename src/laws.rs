//! What holds of every run of a crawl, stated over [`CrawlModel`] and proved.
use vstd::prelude::*;
use crate::model::{first_free, CrawlModel, Event, Phase};
use crate::model::{lemma_all_busy, lemma_busy_count_bound, lemma_busy_count_zero};
use crate::model::{lemma_busy_count_update, lemma_first_free_from};

verus! {

/// The items that a trace routes into the item stream, in order: those of
/// `Item` events whose slot still holds a live execution, while the consumer
/// still reads the stream.
pub open spec fn routed_items<I, T>(m: CrawlModel<I, T>, trace: Seq<Event<I, T>>) -> Seq<I>
    decreases trace.len(),
{
    if trace.len() == 0 {
        Seq::empty()
    } else {
        let head = match trace[0] {
            Event::Item(s, i) => if m.takes_item(s as int) {
                seq![i]
            } else {
                Seq::empty()
            },
            _ => Seq::empty(),
        };
        head + routed_items(m.step(trace[0]), trace.drop_first())
    }
}

/// Every event keeps the structural bounds and the number of slots.
pub proof fn lemma_step_wf<I, T>(m: CrawlModel<I, T>, e: Event<I, T>)
    requires
        m.wf(),
    ensures
        m.step(e).wf(),
        m.step(e).limit() == m.limit(),
        m.step(e).capacity == m.capacity,
{
    lemma_first_free_from(m.slots, 0);
    match e {
        Event::Start => {},
        Event::Item(_, _) => {},
        Event::Offer(_, _) => {},
        Event::Finish(_) => {},
        Event::Take => {},
        Event::Abandon => {},
        Event::Close => {},
    }
}

/// No item is lost or duplicated: what the consumer has taken, followed by
/// what is still buffered, is always what it had before followed by every
/// item that a live execution routed, in the order they were routed. An
/// execution that has ended (after a failure too) routes nothing more.
pub proof fn lemma_items_conserved<I, T>(m: CrawlModel<I, T>, trace: Seq<Event<I, T>>)
    ensures
        m.run(trace).delivered + m.run(trace).items == m.delivered + m.items + routed_items(
            m,
            trace,
        ),
    decreases trace.len(),
{
    if trace.len() > 0 {
        let n = m.step(trace[0]);
        lemma_items_conserved(n, trace.drop_first());
        let head = match trace[0] {
            Event::Item(s, i) => if m.takes_item(s as int) {
                seq![i]
            } else {
                Seq::empty()
            },
            _ => Seq::empty(),
        };
        assert(n.delivered + n.items =~= m.delivered + m.items + head) by {
            if trace[0] is Take && m.items.len() > 0 {
                assert(m.items =~= seq![m.items[0]] + m.items.drop_first());
            }
        }
        assert(m.delivered + m.items + head + routed_items(n, trace.drop_first()) =~= m.delivered
            + m.items + (head + routed_items(n, trace.drop_first())));
    }
}

/// At every point of every run the executions in flight never outnumber the
/// concurrency limit, which no event changes.
pub proof fn lemma_in_flight_bounded<I, T>(m: CrawlModel<I, T>, trace: Seq<Event<I, T>>)
    requires
        m.wf(),
    ensures
        m.run(trace).wf(),
        m.run(trace).limit() == m.limit(),
        m.run(trace).in_flight() <= m.limit(),
    decreases trace.len(),
{
    if trace.len() > 0 {
        lemma_step_wf(m, trace[0]);
        lemma_in_flight_bounded(m.step(trace[0]), trace.drop_first());
    } else {
        lemma_busy_count_bound(m.slots);
    }
}

/// An entry offered to a full queue is not taken and nothing overflows: the
/// state stays as it was, so the producer keeps the entry and waits. Once
/// the dispatcher launches the oldest entry, the same offer is taken, at the
/// back of the queue.
pub proof fn lemma_full_queue_suspends<I, T>(m: CrawlModel<I, T>, s: usize, t: T)
    requires
        m.wf(),
        m.live(s as int),
        m.queue.len() == m.capacity,
    ensures
        m.step(Event::Offer(s, t)) == m,
        m.in_flight() < m.limit() ==> {
            let n = m.step(Event::Start);
            &&& n.queue == m.queue.drop_first()
            &&& n.live(s as int)
            &&& n.step(Event::Offer(s, t)).queue == m.queue.drop_first().push(t)
        },
{
    lemma_first_free_from(m.slots, 0);
    if m.in_flight() < m.limit() {
        if first_free(m.slots) == m.slots.len() {
            assert(m.slots =~= Seq::new(m.slots.len(), |j: int| true));
            lemma_all_busy(m.slots);
        }
    }
}

/// The crawl is complete exactly when nothing is queued and nothing is in
/// flight, and a complete crawl stays complete: no event can bring work back,
/// so the item stream never closes while work remains, and never reopens.
pub proof fn lemma_complete_is_final<I, T>(m: CrawlModel<I, T>, trace: Seq<Event<I, T>>)
    requires
        m.complete(),
    ensures
        m.phase() == Phase::Complete,
        m.run(trace).complete(),
        m.run(trace).queue == m.queue,
        m.run(trace).slots == m.slots,
    decreases trace.len(),
{
    if trace.len() > 0 {
        lemma_busy_count_zero(m.slots);
        let n = m.step(trace[0]);
        assert(n.queue == m.queue && n.slots == m.slots);
        lemma_complete_is_final(n, trace.drop_first());
    }
}

/// The phase is `Complete` if and only if nothing is queued and nothing is in
/// flight.
pub proof fn lemma_complete_iff_no_work<I, T>(m: CrawlModel<I, T>)
    ensures
        (m.phase() == Phase::Complete) <==> (m.queue.len() == 0 && m.in_flight() == 0),
{
}

/// Running one event and then a trace is running the longer trace.
pub proof fn lemma_run_cons<I, T>(m: CrawlModel<I, T>, e: Event<I, T>, trace: Seq<Event<I, T>>)
    ensures
        m.run(seq![e] + trace) == m.step(e).run(trace),
{
    let t = seq![e] + trace;
    assert(t[0] == e);
    assert(t.drop_first() =~= trace);
}

/// Work that stops growing is always drained: from any state, launching the
/// queued entries and ending every execution without new work reaches a
/// complete crawl, whose item stream then closes.
pub proof fn lemma_finite_work_completes<I, T>(m: CrawlModel<I, T>)
    requires
        m.wf(),
        m.limit() <= usize::MAX,
    ensures
        exists|trace: Seq<Event<I, T>>|
            #![trigger m.run(trace)]
            m.run(trace).complete() && forall|k: int|
                0 <= k < trace.len() ==> (trace[k] is Start || trace[k] is Finish),
    decreases 2 * m.queue.len() + m.in_flight(),
{
    if m.complete() {
        let trace = Seq::<Event<I, T>>::empty();
        assert(m.run(trace) == m);
    } else if m.in_flight() > 0 {
        lemma_busy_count_zero(m.slots);
        let s = choose|j: int| 0 <= j < m.slots.len() && m.slots[j];
        let e = Event::<I, T>::Finish(s as usize);
        assert((s as usize) as int == s);
        lemma_busy_count_update(m.slots, s, false);
        lemma_step_wf(m, e);
        let n = m.step(e);
        lemma_finite_work_completes(n);
        let rest = choose|trace: Seq<Event<I, T>>|
            #![trigger n.run(trace)]
            n.run(trace).complete() && forall|k: int|
                0 <= k < trace.len() ==> (trace[k] is Start || trace[k] is Finish);
        lemma_run_cons(m, e, rest);
        let trace = seq![e] + rest;
        assert forall|k: int| 0 <= k < trace.len() implies (trace[k] is Start
            || trace[k] is Finish) by {
            if k > 0 {
                assert(trace[k] == rest[k - 1]);
            }
        }
        assert(m.run(trace).complete());
    } else {
        lemma_busy_count_zero(m.slots);
        lemma_first_free_from(m.slots, 0);
        assert(first_free(m.slots) == 0);
        let e = Event::<I, T>::Start;
        lemma_busy_count_update(m.slots, 0, true);
        lemma_step_wf(m, e);
        let n = m.step(e);
        lemma_finite_work_completes(n);
        let rest = choose|trace: Seq<Event<I, T>>|
            #![trigger n.run(trace)]
            n.run(trace).complete() && forall|k: int|
                0 <= k < trace.len() ==> (trace[k] is Start || trace[k] is Finish);
        lemma_run_cons(m, e, rest);
        let trace = seq![e] + rest;
        assert forall|k: int| 0 <= k < trace.len() implies (trace[k] is Start
            || trace[k] is Finish) by {
            if k > 0 {
                assert(trace[k] == rest[k - 1]);
            }
        }
        assert(m.run(trace).complete());
    }
}

/// Once the consumer has left, every item is refused and nothing else
/// changes, so the execution that routes it stops there; once the task
/// queue is closed, every follow-up is refused in the same way. What was
/// routed before stays where it is.
pub proof fn lemma_gone_sinks_refuse<I, T>(m: CrawlModel<I, T>, s: usize, i: I, t: T)
    ensures
        !m.step(Event::Abandon).stream_open,
        m.step(Event::Abandon).items == m.items,
        m.step(Event::Abandon).delivered == m.delivered,
        m.step(Event::Abandon).step(Event::Item(s, i)) == m.step(Event::Abandon),
        !m.stream_open ==> m.step(Event::Item(s, i)) == m,
        !m.step(Event::Close).queue_open,
        m.step(Event::Close).items == m.items,
        m.step(Event::Close).slots == m.slots,
        m.step(Event::Close).step(Event::Offer(s, t)) == m.step(Event::Close),
        !m.queue_open ==> m.step(Event::Offer(s, t)) == m,
        !m.queue_open ==> !m.must_wait(s as int),
{
}

/// An execution that ends, by a failure of its transport step or otherwise,
/// frees its own slot only: queued work, routed items and every other
/// execution stay as they were, and any item or follow-up it would still
/// route is refused.
pub proof fn lemma_failed_execution_contributes_nothing<I, T>(m: CrawlModel<I, T>, s: usize)
    requires
        m.live(s as int),
    ensures
        ({
            let f = m.step(Event::Finish(s));
            &&& f.queue == m.queue
            &&& f.items == m.items
            &&& f.delivered == m.delivered
            &&& !f.live(s as int)
            &&& f.in_flight() + 1 == m.in_flight()
            &&& forall|j: int| j != s ==> (f.live(j) == m.live(j))
            &&& forall|i: I| f.step(Event::Item(s, i)) == f
            &&& forall|t: T| f.step(Event::Offer(s, t)) == f
        }),
{
    lemma_busy_count_update(m.slots, s as int, false);
}

} // verus!
