//! A lightweight host-metrics agent core.
//!
//! The library refreshes an operating-system metrics provider under a lock
//! and turns one consistent reading into an immutable, serialization-ready
//! snapshot with deterministic field values and sorted map keys.

pub mod metrics;
pub mod order;
pub mod server;
pub mod si;
pub mod sorted_map;
pub mod store;

pub use crate::metrics::HostMetrics as State;
pub use crate::metrics::init;
pub use crate::store::collect_data;
