//! Why the service turns a request down.

use vstd::prelude::*;
use vstd::string::StringExecFns;

verus! {

/// The recoverable failures of the service. None of them is fatal to the
/// process, and none leaves the registry changed.
#[derive(Debug, Clone, Copy, PartialEq, Eq, Structural)]
pub enum ServiceError {
    /// Capacity: the number of live connections has reached the hard
    /// ceiling that holds whatever the configuration says.
    TooManyConnections,
    /// Capacity: the number of live connections has reached the configured
    /// maximum.
    MaxConnectionsReached,
    /// The request names a connection that is not in the registry.
    ConnectionNotFound,
    /// A connection asks for admission under an identifier that a live
    /// connection has: identifiers are never used twice.
    IdentifierInUse,
}

impl ServiceError {
    /// Whether the error reports that there is no room for a connection.
    pub open spec fn is_capacity(self) -> bool {
        self == ServiceError::TooManyConnections || self == ServiceError::MaxConnectionsReached
    }

    /// The message that goes with the error.
    pub open spec fn text(self) -> Seq<char> {
        match self {
            ServiceError::TooManyConnections => "Too many connections"@,
            ServiceError::MaxConnectionsReached => "Maximum connections reached"@,
            ServiceError::ConnectionNotFound => "Connection not found"@,
            ServiceError::IdentifierInUse => "Connection identifier already in use"@,
        }
    }

    /// Whether the error reports that there is no room for a connection.
    pub fn capacity(&self) -> (r: bool)
        ensures
            r == self.is_capacity(),
    {
        match self {
            ServiceError::TooManyConnections => true,
            ServiceError::MaxConnectionsReached => true,
            ServiceError::ConnectionNotFound => false,
            ServiceError::IdentifierInUse => false,
        }
    }

    /// The message that goes with the error.
    pub fn message(&self) -> (r: String)
        ensures
            r@ == self.text(),
    {
        match self {
            ServiceError::TooManyConnections => String::from_str("Too many connections"),
            ServiceError::MaxConnectionsReached => String::from_str("Maximum connections reached"),
            ServiceError::ConnectionNotFound => String::from_str("Connection not found"),
            ServiceError::IdentifierInUse => String::from_str(
                "Connection identifier already in use",
            ),
        }
    }
}

} // verus!
