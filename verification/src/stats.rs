//! What the service reports of itself.

use vstd::prelude::*;
use crate::identity::{ConnectionId, Millis};

verus! {

/// The health of one connection at a moment.
#[derive(Debug, Clone)]
pub struct ConnectionHealth {
    /// Whose health this is.
    pub connection_id: ConnectionId,
    /// Whether the latest activity is less than the timeout ago.
    pub is_healthy: bool,
    /// Milliseconds since the connection was admitted.
    pub connected_duration: i128,
    /// Milliseconds since the latest ping or pong, if there was one.
    pub last_ping_duration: Option<i128>,
    /// How many topics the connection is subscribed to.
    pub subscription_count: usize,
    /// The topic strings that the connection is subscribed to.
    pub subscriptions: Vec<String>,
}

/// Aggregate numbers of the service.
#[derive(Debug, Clone)]
pub struct ServiceStats {
    /// The number of connections in the registry.
    pub total_connections: usize,
    /// The number of subscriber handles of the broadcaster.
    pub subscriber_count: usize,
    /// For each topic string that some connection is subscribed to, the
    /// number of such connections. No topic string occurs twice.
    pub topic_subscriptions: Vec<(String, usize)>,
    /// Milliseconds that the service has been up at the moment of the
    /// report.
    pub uptime: Millis,
}

/// The state of the broadcaster.
#[derive(Debug, Clone)]
pub struct BroadcasterStats {
    /// The number of subscriber handles.
    pub receiver_count: usize,
    /// Whether there is no subscriber handle at all.
    pub is_closed: bool,
}

/// A rough estimate of the memory that the registry takes.
#[derive(Debug, Clone)]
pub struct MemoryUsage {
    /// The number of connections in the registry.
    pub connection_registry_size: usize,
    /// Eight kilobytes for each of them.
    pub estimated_memory_kb: usize,
}

/// Everything the service can report at once.
#[derive(Debug, Clone)]
pub struct ServiceDiagnostics {
    pub service_stats: ServiceStats,
    pub connection_health: Vec<ConnectionHealth>,
    pub config_issues: Vec<String>,
    pub broadcaster_stats: BroadcasterStats,
    pub memory_usage: MemoryUsage,
}

/// What one round of health monitoring found.
#[derive(Debug, Clone, Copy, PartialEq, Eq)]
pub struct HealthSummary {
    /// The number of connections in the registry.
    pub total_connections: usize,
    /// How many of them are healthy.
    pub healthy_connections: usize,
    /// How many of them are not.
    pub unhealthy_connections: usize,
    /// The number of subscriber handles of the broadcaster.
    pub subscriber_count: usize,
    /// The number of topic strings that some connection is subscribed to.
    pub topic_count: usize,
}

} // verus!
