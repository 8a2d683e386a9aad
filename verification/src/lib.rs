//! A small web server's core: a fixed-size worker pool, and the routing and
//! answering of requests that the pool's tasks perform.
//!
//! The pool is written as a protocol core. The pool, its dispatch queue and
//! its workers are plain state that an embedding drives from its own
//! threads, one call per protocol step; nothing here blocks, spawns or does
//! I/O. What the pool guarantees under every schedule is stated in
//! [`laws`].

pub mod controller;
pub mod error;
pub mod laws;
pub mod message;
pub mod model;
pub mod pool;
pub mod queue;
pub mod router;
pub mod safety;
pub mod worker;

pub use controller::{
    format_decimal, handle_delete_request, handle_get_request, handle_invalid_request,
    handle_post_request, handle_put_request,
};
pub use error::PoolError;
pub use message::ControlMessage;
pub use pool::ThreadPool;
pub use queue::DispatchQueue;
pub use router::{parse_request, starts_with, HttpMethod, Route, SLEEP_SECS};
pub use worker::{TaskOutcome, Worker, WorkerState};
