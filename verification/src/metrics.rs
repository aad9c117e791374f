//! Connection counters.

use vstd::prelude::*;
use std::sync::atomic::AtomicU64;
use std::sync::atomic::Ordering;

verus! {

/// Counters of the transport layer, shared between the tasks that serve
/// connections. Each is a plain atomic: any task may bump it at any time,
/// so no call can promise what a later read will find.
pub struct TransportMetrics {
    pub total_connections: AtomicU64,
    pub active_connections: AtomicU64,
    pub bytes_sent: AtomicU64,
    pub handshakes_failed: AtomicU64,
}

impl TransportMetrics {
    /// Counts one more connection, both in total and as active.
    pub fn connection_started(&self) {
        self.total_connections.fetch_add(1, Ordering::Relaxed);
        self.active_connections.fetch_add(1, Ordering::Relaxed);
    }
}

/// The name under which the number of open connections is published.
pub const ACTIVE_CONNECTIONS: &'static str = "sentinel_active_connections";

/// The name under which the number of connections ever opened is published.
pub const TOTAL_CONNECTIONS: &'static str = "sentinel_total_connections";

/// What one event does to the published metrics: a step of the gauge of
/// open connections, and an increment of the counter of all connections.
#[derive(Debug, Clone, Copy, PartialEq, Eq, Structural)]
pub struct MetricsUpdate {
    pub active_connections: i64,
    pub total_connections: u64,
}

/// The server's connection metrics. It decides what is published for each
/// event; publishing is left to the caller's recorder.
#[derive(Debug, Clone, Copy)]
pub struct Metrics;

impl Metrics {
    pub fn new() -> (m: Self)
        ensures
            m == Metrics,
    {
        Self
    }

    /// A connection opened: one more open, one more in total.
    pub fn increment_connections(&self) -> (u: MetricsUpdate)
        ensures
            u.active_connections == 1,
            u.total_connections == 1,
    {
        MetricsUpdate { active_connections: 1, total_connections: 1 }
    }

    /// A connection closed: one fewer open, the total unchanged.
    pub fn decrement_connections(&self) -> (u: MetricsUpdate)
        ensures
            u.active_connections == -1,
            u.total_connections == 0,
    {
        MetricsUpdate { active_connections: -1, total_connections: 0 }
    }
}

} // verus!
