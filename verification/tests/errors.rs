use connection_hub::ServiceError;

#[test]
fn messages_of_the_errors() {
    assert_eq!(ServiceError::TooManyConnections.message(), "Too many connections");
    assert_eq!(ServiceError::MaxConnectionsReached.message(), "Maximum connections reached");
    assert_eq!(ServiceError::ConnectionNotFound.message(), "Connection not found");
    assert_eq!(
        ServiceError::IdentifierInUse.message(),
        "Connection identifier already in use"
    );
}

#[test]
fn capacity_errors_are_told_from_the_rest() {
    assert!(ServiceError::TooManyConnections.capacity());
    assert!(ServiceError::MaxConnectionsReached.capacity());
    assert!(!ServiceError::ConnectionNotFound.capacity());
    assert!(!ServiceError::IdentifierInUse.capacity());
}
