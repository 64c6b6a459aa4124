use connection_hub::{WsConfig, DEFAULT_CHANNEL_CAPACITY, HARD_CONNECTION_CEILING};

fn config(ping_interval: u64, connection_timeout: u64, max_connections: usize) -> WsConfig {
    WsConfig { ping_interval, connection_timeout, max_connections, buffer_size: None }
}

#[test]
fn default_configuration_has_the_documented_values() {
    let c = WsConfig::default();
    assert_eq!(c.ping_interval, 30_000);
    assert_eq!(c.connection_timeout, 300_000);
    assert_eq!(c.max_connections, 1000);
    assert_eq!(c.buffer_size, Some(65_536));
}

#[test]
fn constants_have_the_documented_values() {
    assert_eq!(HARD_CONNECTION_CEILING, 50);
    assert_eq!(DEFAULT_CHANNEL_CAPACITY, 1000);
}

#[test]
fn capacity_is_the_buffer_size_or_the_default() {
    assert_eq!(WsConfig::default().capacity(), 65_536);
    assert_eq!(config(1, 2, 3).capacity(), 1000);
}

#[test]
fn default_configuration_has_no_issues() {
    assert!(WsConfig::default().validate().is_empty());
}

#[test]
fn zero_max_connections_is_reported() {
    let issues = config(30_000, 300_000, 0).validate();
    assert_eq!(
        issues,
        vec!["max_connections is set to 0 - no connections will be allowed".to_string()]
    );
}

#[test]
fn very_long_ping_interval_is_reported_with_its_seconds() {
    let issues = config(301_000, 1_000_000, 10).validate();
    assert_eq!(
        issues,
        vec![
            "ping_interval is very long (301 seconds) - may cause connection timeouts"
                .to_string()
        ]
    );
}

#[test]
fn ping_interval_of_exactly_five_minutes_is_accepted() {
    assert!(config(300_999, 1_000_000, 10).validate().is_empty());
}

#[test]
fn very_short_timeout_is_reported_with_its_seconds() {
    let issues = config(1_000, 29_999, 10).validate();
    assert_eq!(
        issues,
        vec![
            "connection_timeout is very short (29 seconds) - may cause premature disconnections"
                .to_string()
        ]
    );
}

#[test]
fn timeout_of_thirty_seconds_is_accepted() {
    assert!(config(1_000, 30_000, 10).validate().is_empty());
}

#[test]
fn ping_interval_not_below_the_timeout_is_reported() {
    let issues = config(60_000, 60_000, 10).validate();
    assert_eq!(
        issues,
        vec![
            "ping_interval is greater than or equal to connection_timeout - connections may timeout before ping"
                .to_string()
        ]
    );
}

#[test]
fn all_issues_come_in_a_fixed_order() {
    let issues = config(400_000, 5_000, 0).validate();
    assert_eq!(
        issues,
        vec![
            "max_connections is set to 0 - no connections will be allowed".to_string(),
            "ping_interval is very long (400 seconds) - may cause connection timeouts"
                .to_string(),
            "connection_timeout is very short (5 seconds) - may cause premature disconnections"
                .to_string(),
            "ping_interval is greater than or equal to connection_timeout - connections may timeout before ping"
                .to_string(),
        ]
    );
}
