//! The core of a real-time connection manager.
//!
//! Connections are admitted under a capacity limit, kept in a registry
//! together with their liveness and topic subscriptions, and served by a
//! broadcaster that fans published messages out; each connection forwards
//! only what matches its subscriptions. Every rule is stated as a contract
//! over a mathematical model of the data and proved.

pub mod text;
pub mod counting;
pub mod identity;
pub mod error;
pub mod topic;
pub mod message;
pub mod config;
pub mod stats;
pub mod record;
pub mod broadcaster;
pub mod registry;
pub mod service;
pub mod session;
pub mod query;
pub mod laws;

pub use broadcaster::Broadcaster;
pub use config::{WsConfig, DEFAULT_CHANNEL_CAPACITY, HARD_CONNECTION_CEILING};
pub use error::ServiceError;
pub use identity::{ConnectionId, Millis, Timestamp};
pub use message::{MessageTime, WsMessage};
pub use query::WsQuery;
pub use record::{ConnectionInfo, ConnectionRecord};
pub use registry::ConnectionRegistry;
pub use service::{Handled, ServiceModel, WebSocketService};
pub use session::{ConnectionSession, SessionAction, SessionEvent, SessionState};
pub use stats::{
    BroadcasterStats, ConnectionHealth, HealthSummary, MemoryUsage, ServiceDiagnostics,
    ServiceStats,
};
pub use topic::{SubscriptionTopic, Topic};
