//! Crawl orchestration: a bounded task queue, a concurrency-limited set of
//! worker slots, the routing of handler outcomes, and the item stream that the
//! caller consumes. The runtime that fetches pages and runs handlers drives the
//! [`Crawl`] state machine; every decision it takes is made and proved here.
pub mod outcome;
pub mod callback;
pub mod model;
pub mod dispatcher;
pub mod config;
pub mod laws;
pub mod util;
pub mod handler;

pub use outcome::{ExecutionError, Indeterminate};
pub use handler::HandlerImpl;
pub use callback::Callback;
pub use dispatcher::{Crawl, Routing};
pub use config::{CrawlLimits, Web, WebBuilder};
pub use model::{CrawlModel, Event, Phase};
