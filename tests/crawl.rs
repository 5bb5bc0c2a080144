use scrappy_do::{Callback, Crawl, Routing, CrawlLimits, ExecutionError, Indeterminate, Phase, WebBuilder};
use scrappy_do::config::{task_queue_capacity, DEFAULT_CONCURRENT_REQUESTS, DEFAULT_TASK_QUEUE_SIZE_BYTES};

type Outcome = Indeterminate<String, &'static str>;

fn item(s: &str) -> Outcome {
    Indeterminate::from_item(s.to_string())
}

fn follow(t: &'static str) -> Outcome {
    Indeterminate::from_callback(t)
}

fn routed(r: Routing<String, &'static str>) -> bool {
    matches!(r, Routing::Routed)
}

#[test]
fn chain_with_one_slot_yields_items_in_order() {
    let mut crawl: Crawl<String, &'static str> = Crawl::new(1, 4, "seed");
    assert_eq!(crawl.phase(), Phase::Seeded);
    let (slot, task) = crawl.start_next().unwrap();
    assert_eq!((slot, task), (0, "seed"));
    assert_eq!(crawl.phase(), Phase::Draining);
    assert!(routed(crawl.route(slot, item("A"))));
    assert!(routed(crawl.route(slot, follow("B"))));
    assert_eq!(crawl.phase(), Phase::Running);
    // The only slot is taken: nothing else starts.
    assert!(crawl.start_next().is_none());
    assert!(crawl.finish(slot));
    let (slot, task) = crawl.start_next().unwrap();
    assert_eq!((slot, task), (0, "B"));
    assert!(routed(crawl.route(slot, item("B"))));
    assert!(!crawl.is_complete());
    assert!(crawl.finish(slot));
    assert!(crawl.is_complete());
    assert_eq!(crawl.phase(), Phase::Complete);
    assert_eq!(crawl.take_item(), Some("A".to_string()));
    assert!(!crawl.is_exhausted());
    assert_eq!(crawl.take_item(), Some("B".to_string()));
    assert_eq!(crawl.take_item(), None);
    assert!(crawl.is_exhausted());
}

#[test]
fn two_branches_run_side_by_side() {
    let mut crawl: Crawl<String, &'static str> = Crawl::new(2, 4, "seed");
    let (s0, _) = crawl.start_next().unwrap();
    assert!(routed(crawl.route(s0, follow("left"))));
    assert!(routed(crawl.route(s0, follow("right"))));
    assert!(crawl.finish(s0));
    let (a, ta) = crawl.start_next().unwrap();
    let (b, tb) = crawl.start_next().unwrap();
    assert_eq!((ta, tb), ("left", "right"));
    assert_ne!(a, b);
    assert_eq!(crawl.in_flight(), 2);
    assert!(routed(crawl.route(b, item("R"))));
    assert!(routed(crawl.route(a, item("L"))));
    assert!(crawl.finish(b));
    assert!(!crawl.is_complete());
    assert!(crawl.finish(a));
    assert!(crawl.is_complete());
    let mut got = vec![crawl.take_item().unwrap(), crawl.take_item().unwrap()];
    got.sort();
    assert_eq!(got, vec!["L".to_string(), "R".to_string()]);
    assert!(crawl.is_exhausted());
}

#[test]
fn full_queue_hands_work_back_until_drained() {
    let limits = CrawlLimits { concurrent_requests: 2, task_queue_size_bytes: 8 };
    let mut crawl: Crawl<String, &'static str> = match limits.launch(8, "seed") {
        Ok(c) => c,
        Err(_) => panic!("a budget of one entry is enough"),
    };
    assert_eq!(crawl.capacity(), 1);
    let (s, _) = crawl.start_next().unwrap();
    assert_eq!(crawl.offer(s, "one"), Ok(()));
    assert_eq!(crawl.offer(s, "two"), Err("two"));
    assert_eq!(crawl.offer(s, "three"), Err("three"));
    assert_eq!(crawl.queued(), 1);
    // The dispatcher drains one entry; the waiting producer gets in.
    let (s1, t1) = crawl.start_next().unwrap();
    assert_eq!(t1, "one");
    assert_eq!(crawl.offer(s, "two"), Ok(()));
    assert_eq!(crawl.offer(s, "three"), Err("three"));
    assert!(crawl.finish(s1));
    let (s2, t2) = crawl.start_next().unwrap();
    assert_eq!(t2, "two");
    assert_eq!(crawl.offer(s, "three"), Ok(()));
    assert!(crawl.finish(s2));
    assert!(crawl.finish(s));
    let (s3, t3) = crawl.start_next().unwrap();
    assert_eq!(t3, "three");
    assert!(crawl.finish(s3));
    assert!(crawl.is_complete());
}

#[test]
fn in_flight_never_exceeds_limit() {
    let mut crawl: Crawl<String, &'static str> = Crawl::new(2, 8, "seed");
    let (s, _) = crawl.start_next().unwrap();
    for t in ["a", "b", "c", "d"] {
        assert!(crawl.offer(s, t).is_ok());
    }
    assert!(crawl.start_next().is_some());
    assert_eq!(crawl.in_flight(), 2);
    assert!(crawl.start_next().is_none());
    assert_eq!(crawl.in_flight(), 2);
    assert_eq!(crawl.queued(), 3);
    assert_eq!(crawl.concurrency_limit(), 2);
}

#[test]
fn failed_execution_contributes_nothing() {
    let mut crawl: Crawl<String, &'static str> = Crawl::new(2, 4, "seed");
    let (s, _) = crawl.start_next().unwrap();
    assert!(routed(crawl.route(s, follow("ok"))));
    assert!(routed(crawl.route(s, follow("broken"))));
    assert!(crawl.finish(s));
    let (good, _) = crawl.start_next().unwrap();
    let (bad, _) = crawl.start_next().unwrap();
    // The transport step of `bad` fails: it ends at once.
    assert!(crawl.finish(bad));
    match crawl.route(bad, item("late")) {
        Routing::Stop(Indeterminate::Item(i)) => assert_eq!(i, "late"),
        _ => panic!("an ended execution routes nothing"),
    }
    assert!(!routed(crawl.route(bad, follow("late"))));
    assert!(!crawl.finish(bad));
    assert!(routed(crawl.route(good, item("G"))));
    assert!(crawl.finish(good));
    assert!(crawl.is_complete());
    assert_eq!(crawl.buffered_items(), 1);
    assert_eq!(crawl.take_item(), Some("G".to_string()));
    assert_eq!(crawl.take_item(), None);
}

#[test]
fn complete_crawl_stays_complete() {
    let mut crawl: Crawl<String, &'static str> = Crawl::new(1, 1, "seed");
    let (s, _) = crawl.start_next().unwrap();
    assert!(crawl.finish(s));
    assert!(crawl.is_complete());
    assert!(crawl.start_next().is_none());
    assert!(crawl.offer(s, "x").is_err());
    assert!(!routed(crawl.route(s, item("x"))));
    assert!(crawl.is_exhausted());
    assert_eq!(crawl.phase(), Phase::Complete);
}

#[test]
fn unknown_slot_is_refused() {
    let mut crawl: Crawl<String, &'static str> = Crawl::new(1, 1, "seed");
    assert!(crawl.offer(5, "x").is_err());
    assert!(!crawl.finish(0));
    assert_eq!(crawl.queued(), 1);
}

#[test]
fn refused_outcomes_map_to_sink_failures() {
    let e: ExecutionError<(), String, &'static str> = ExecutionError::refused(item("i"));
    assert!(matches!(e, ExecutionError::ItemSinkFailure(ref i) if i == "i"));
    assert_eq!(e.kind(), "item sink failure");
    let e: ExecutionError<(), String, &'static str> = ExecutionError::refused(follow("k"));
    assert!(matches!(e, ExecutionError::QueueSinkFailure("k")));
    assert_eq!(e.kind(), "queue sink failure");
    let e: ExecutionError<u8, String, &'static str> = ExecutionError::TransportFailure(7);
    assert_eq!(e.kind(), "transport failure");
    assert!(item("i").is_item());
    assert!(!follow("k").is_item());
}

#[test]
fn queue_capacity_from_budget() {
    assert_eq!(task_queue_capacity(10, 3), 3);
    assert_eq!(task_queue_capacity(3, 3), 1);
    assert_eq!(task_queue_capacity(2, 3), 1);
    assert_eq!(task_queue_capacity(0, 3), 1);
    assert_eq!(task_queue_capacity(10_000_000, 64), 156_250);
}

#[test]
fn small_budget_still_holds_one_entry() {
    let limits = CrawlLimits { concurrent_requests: 3, task_queue_size_bytes: 7 };
    let r: Result<Crawl<String, &'static str>, &'static str> = limits.launch(8, "seed");
    let crawl = match r {
        Ok(c) => c,
        Err(_) => panic!("a positive budget always launches"),
    };
    assert_eq!(crawl.capacity(), 1);
    assert_eq!(crawl.queued(), 1);
}

#[test]
fn launch_refuses_zero_concurrency() {
    let limits = CrawlLimits { concurrent_requests: 0, task_queue_size_bytes: 64 };
    let r: Result<Crawl<String, &'static str>, &'static str> = limits.launch(8, "seed");
    assert!(matches!(r, Err("seed")));
}

#[test]
fn builder_uses_defaults() {
    let web = WebBuilder::new().start("req").handler("h").context(1u8).build();
    assert_eq!(web.concurrent_requests(), DEFAULT_CONCURRENT_REQUESTS);
    assert_eq!(web.concurrent_requests(), 20);
    assert_eq!(web.task_queue_size_bytes(), DEFAULT_TASK_QUEUE_SIZE_BYTES);
    assert_eq!(web.task_queue_size_bytes(), 10_000_000);
    let (seed, limits) = web.into_parts();
    assert_eq!(*seed.target(), "req");
    assert_eq!(*seed.handler(), "h");
    assert_eq!(seed.into_parts(), ("req", "h", 1u8));
    assert_eq!(limits, CrawlLimits { concurrent_requests: 20, task_queue_size_bytes: 10_000_000 });
}

#[test]
fn builder_keeps_set_limits() {
    let web = WebBuilder::new()
        .concurrent_requests(3)
        .task_queue_size_bytes(99)
        .start("req")
        .handler("h")
        .context(())
        .build();
    assert_eq!(web.concurrent_requests(), 3);
    assert_eq!(web.task_queue_size_bytes(), 99);
}

#[test]
fn builder_needs_request_handler_and_context() {
    let b = WebBuilder::<&str, &str, u8>::new();
    assert!(!b.has_start() && !b.has_handler() && !b.has_context());
    let b = b.handler("h").context(1);
    assert!(!b.has_start() && b.has_handler() && b.has_context());
    let b = WebBuilder::<&str, &str, u8>::new().start("r").context(1);
    assert!(b.has_start() && !b.has_handler());
    let b = WebBuilder::<&str, &str, u8>::new().start("r").handler("h");
    assert!(!b.has_context());
}

#[test]
fn callback_keeps_its_parts() {
    let cb = Callback::new("handler", "https://example.com/", 3u8);
    assert_eq!(*cb.target(), "https://example.com/");
    assert_eq!(*cb.handler(), "handler");
    assert_eq!(cb.into_parts(), ("https://example.com/", "handler", 3u8));
}

#[test]
fn full_queue_makes_follow_up_wait() {
    let mut crawl: Crawl<String, &'static str> = Crawl::new(1, 1, "seed");
    let (s, _) = crawl.start_next().unwrap();
    assert!(routed(crawl.route(s, follow("a"))));
    match crawl.route(s, follow("b")) {
        Routing::Wait(t) => assert_eq!(t, "b"),
        _ => panic!("a full queue makes the producer wait"),
    }
    assert_eq!(crawl.queued(), 1);
}

#[test]
fn abandoned_stream_stops_items() {
    let mut crawl: Crawl<String, &'static str> = Crawl::new(1, 2, "seed");
    let (s, _) = crawl.start_next().unwrap();
    assert!(routed(crawl.route(s, item("kept"))));
    assert!(crawl.is_stream_open());
    crawl.abandon();
    assert!(!crawl.is_stream_open());
    match crawl.route(s, item("lost")) {
        Routing::Stop(Indeterminate::Item(i)) => assert_eq!(i, "lost"),
        _ => panic!("an item for a gone consumer stops the execution"),
    }
    assert_eq!(crawl.buffered_items(), 1);
    assert!(routed(crawl.route(s, follow("still"))));
}

#[test]
fn closed_queue_stops_follow_ups() {
    let mut crawl: Crawl<String, &'static str> = Crawl::new(1, 1, "seed");
    let (s, _) = crawl.start_next().unwrap();
    assert!(routed(crawl.route(s, follow("queued"))));
    crawl.close_queue();
    assert_eq!(crawl.queued(), 0);
    match crawl.route(s, follow("lost")) {
        Routing::Stop(Indeterminate::Callback(t)) => assert_eq!(t, "lost"),
        _ => panic!("a follow-up for a closed queue stops the execution"),
    }
    assert!(routed(crawl.route(s, item("I"))));
    assert!(crawl.finish(s));
    assert!(crawl.is_complete());
}
