//! The messages that connections and the service exchange.

use vstd::prelude::*;
use crate::identity::ConnectionId;

verus! {

/// An arbitrary JSON value, as `serde_json` holds it. The service carries
/// such payloads through and never looks inside.
#[verifier::external_type_specification]
#[verifier::external_body]
pub struct ExJsonValue(serde_json::Value);

/// `Clone` of `serde_json::Value`, which the derived `Clone` of a message
/// calls. Trusted, and nothing is claimed of the copy.
pub assume_specification[ <serde_json::Value as Clone>::clone ](value: &serde_json::Value) -> (r:
    serde_json::Value)
;

/// The moment that a message speaks of, as exactly as a calendar holds
/// it: the whole seconds since the Unix epoch and the nanoseconds within
/// the second. The service carries it through and never reads it.
#[derive(Debug, Clone, Copy, PartialEq, Eq)]
pub struct MessageTime {
    pub seconds: i64,
    pub nanoseconds: u32,
}

/// A message: a closed set of variants, each with its own payload. A message
/// is not changed once it is made.
#[derive(Debug, Clone, PartialEq)]
pub enum WsMessage {
    /// Sent to a connection right after it was registered.
    ConnectionEstablished { connection_id: ConnectionId },
    /// A liveness probe.
    Ping,
    /// The answer to a probe.
    Pong,
    /// A request to add the topic strings to the sender's subscriptions.
    Subscribe { topics: Vec<String> },
    /// A request to drop the topic strings from the sender's subscriptions.
    Unsubscribe { topics: Vec<String> },
    /// The navigation of a schema has changed.
    NavigationUpdated { schema: String, data: serde_json::Value },
    /// A schema was loaded again.
    SchemaReloaded { schema: String },
    /// A file has changed.
    FileChanged { path: String, event_type: String },
    /// New data of a source.
    DataUpdate { source: String, data: serde_json::Value, timestamp: MessageTime },
    /// A failure, reported to the client.
    Error { message: String, code: Option<u16> },
    /// An event of the application's own.
    Custom { event: String, data: serde_json::Value },
}

} // verus!
