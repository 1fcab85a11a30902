//! A lightweight health-monitoring library.
//!
//! A configured set of service endpoints is probed periodically; the most
//! recent outcome of each probe is kept in a concurrent cache keyed by
//! environment and check name. A staleness policy decides when a cached
//! outcome is old enough that the check is due for a fresh probe. The
//! network probes themselves, the HTTP server that renders the dashboard,
//! and configuration loading live outside this library; the decisions and
//! the data they work on are verified here.
//!
//! Timestamps throughout are on a monotonic clock, in milliseconds; the
//! clock's origin is arbitrary (a caller typically measures from process
//! start), so only differences between timestamps are meaningful.

pub mod cache;
pub mod checker;
pub mod models;
pub mod present;
