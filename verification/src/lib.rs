//! A distributed token-bucket rate limiter.
//!
//! Many independent clients share one bucket record in an external store.
//! Each call asks the slot allocator for the next free slot, a timestamp in
//! milliseconds since the epoch, and then waits until that slot arrives or
//! refuses to wait when the wait would exceed the configured bound.
//!
//! The crate holds the decisions only: the allocation rule, the layout of the
//! stored record, the configuration and the per-call protocol. Talking to the
//! store, reading clocks and sleeping are left to the caller.

pub mod allocator;
pub mod config;
pub mod errors;
pub mod history;
pub mod scheduler;
pub mod store;
