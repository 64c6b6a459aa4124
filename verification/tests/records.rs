use connection_hub::record::{copy_texts, position_of};
use connection_hub::{ConnectionInfo, SubscriptionTopic};

fn strings(items: &[&str]) -> Vec<String> {
    items.iter().map(|s| s.to_string()).collect()
}

#[test]
fn new_record_has_no_ping_no_subscriptions_and_no_metadata() {
    let record = ConnectionInfo::new();
    assert_eq!(record.last_ping, None);
    assert!(record.subscriptions.is_empty());
    assert!(record.metadata.is_empty());
}

#[test]
fn new_records_get_distinct_random_version_4_identifiers() {
    let a = ConnectionInfo::new();
    let b = ConnectionInfo::new();
    assert_ne!(a.id, b.id);
    assert_eq!((a.id >> 76) & 0xf, 4);
    assert_eq!((b.id >> 76) & 0xf, 4);
}

#[test]
fn new_record_is_stamped_with_the_time_of_the_clock() {
    let record = ConnectionInfo::new();
    // later than 2020-01-01 and earlier than 2100-01-01
    assert!(record.connected_at > 1_577_836_800_000);
    assert!(record.connected_at < 4_102_444_800_000);
}

#[test]
fn with_identity_keeps_what_it_is_given() {
    let record = ConnectionInfo::with_identity(42, 1_000);
    assert_eq!(record.id, 42);
    assert_eq!(record.connected_at, 1_000);
    assert_eq!(record.last_ping, None);
    assert!(record.subscriptions.is_empty());
    assert!(record.metadata.is_empty());
}

#[test]
fn position_of_finds_the_first_occurrence() {
    let list = strings(&["a", "b", "a"]);
    assert_eq!(position_of(&list, "a"), Some(0));
    assert_eq!(position_of(&list, "b"), Some(1));
    assert_eq!(position_of(&list, "c"), None);
    assert_eq!(position_of(&Vec::new(), "a"), None);
}

#[test]
fn copy_texts_copies_in_order() {
    let list = strings(&["x", "", "z"]);
    assert_eq!(copy_texts(&list), list);
}

#[test]
fn subscribe_adds_new_topics_at_the_end_in_request_order() {
    let mut record = ConnectionInfo::with_identity(1, 0);
    record.subscribe(&strings(&["navigation", "data:metrics"]));
    assert_eq!(record.subscriptions, strings(&["navigation", "data:metrics"]));
    record.subscribe(&strings(&["all", "navigation", "filesystem"]));
    assert_eq!(
        record.subscriptions,
        strings(&["navigation", "data:metrics", "all", "filesystem"])
    );
}

#[test]
fn subscribe_rejects_duplicates_within_one_request() {
    let mut record = ConnectionInfo::with_identity(1, 0);
    record.subscribe(&strings(&["a", "a", "b", "a"]));
    assert_eq!(record.subscriptions, strings(&["a", "b"]));
}

#[test]
fn unsubscribe_removes_present_topics_and_ignores_absent_ones() {
    let mut record = ConnectionInfo::with_identity(1, 0);
    record.subscribe(&strings(&["a", "b", "c"]));
    record.unsubscribe(&strings(&["b", "x"]));
    assert_eq!(record.subscriptions, strings(&["a", "c"]));
    record.unsubscribe(&strings(&["a", "a", "c"]));
    assert!(record.subscriptions.is_empty());
}

#[test]
fn subscribe_then_unsubscribe_restores_the_subscriptions() {
    let mut record = ConnectionInfo::with_identity(1, 0);
    record.subscribe(&strings(&["navigation", "all"]));
    let before = record.subscriptions.clone();
    record.subscribe(&strings(&["data:metrics"]));
    record.unsubscribe(&strings(&["data:metrics"]));
    assert_eq!(record.subscriptions, before);
}

#[test]
fn subscribe_then_unsubscribe_of_a_present_topic_removes_it() {
    let mut record = ConnectionInfo::with_identity(1, 0);
    record.subscribe(&strings(&["navigation", "all"]));
    record.subscribe(&strings(&["navigation"]));
    record.unsubscribe(&strings(&["navigation"]));
    assert_eq!(record.subscriptions, strings(&["all"]));
}

#[test]
fn is_subscribed_looks_for_the_literal_string() {
    let mut record = ConnectionInfo::with_identity(1, 0);
    record.subscribe(&strings(&["data:metrics"]));
    assert!(record.is_subscribed("data:metrics"));
    assert!(!record.is_subscribed("data:"));
    assert!(!record.is_subscribed("all"));
}

#[test]
fn receives_by_canonical_string_or_all() {
    let mut record = ConnectionInfo::with_identity(1, 0);
    let metrics = SubscriptionTopic::DataUpdates("metrics".to_string());
    assert!(!record.receives(&metrics));
    record.subscribe(&strings(&["data:metrics"]));
    assert!(record.receives(&metrics));
    assert!(!record.receives(&SubscriptionTopic::Navigation));
    assert!(!record.receives(&SubscriptionTopic::All));
    record.subscribe(&strings(&["all"]));
    assert!(record.receives(&SubscriptionTopic::Navigation));
    assert!(record.receives(&SubscriptionTopic::All));
}

#[test]
fn direct_topic_is_received_by_its_target_only() {
    let mut target = ConnectionInfo::with_identity(7, 0);
    let mut other = ConnectionInfo::with_identity(8, 0);
    other.subscribe(&strings(&["all", "direct:00000000-0000-0000-0000-000000000007"]));
    let topic = SubscriptionTopic::Direct(7);
    assert!(target.receives(&topic));
    assert!(!other.receives(&topic));
    target.subscribe(&strings(&["navigation"]));
    assert!(target.receives(&topic));
}

#[test]
fn last_activity_is_the_last_ping_or_the_admission() {
    let mut record = ConnectionInfo::with_identity(1, 5_000);
    assert_eq!(record.last_activity(), 5_000);
    record.record_ping(9_000);
    assert_eq!(record.last_ping, Some(9_000));
    assert_eq!(record.last_activity(), 9_000);
    assert_eq!(record.connected_at, 5_000);
}

#[test]
fn stale_means_older_than_the_threshold() {
    let record = ConnectionInfo::with_identity(1, 10_000);
    // threshold = now - timeout = 10_000: not older
    assert!(!record.is_stale(40_000, 30_000));
    // threshold = 10_001: older
    assert!(record.is_stale(40_001, 30_000));
    assert!(!record.is_stale(0, 30_000));
}

#[test]
fn staleness_goes_by_the_last_ping_where_there_is_one() {
    let mut record = ConnectionInfo::with_identity(1, 10_000);
    record.record_ping(35_000);
    assert!(!record.is_stale(60_000, 30_000));
    assert!(record.is_stale(65_001, 30_000));
}

#[test]
fn staleness_does_not_overflow_at_the_ends_of_time() {
    let old = ConnectionInfo::with_identity(1, i64::MIN);
    // the threshold is i64::MAX - u64::MAX, which is i64::MIN itself
    assert!(!old.is_stale(i64::MAX, u64::MAX));
    assert!(old.is_stale(i64::MAX, u64::MAX - 1));
    let young = ConnectionInfo::with_identity(1, i64::MAX);
    assert!(!young.is_stale(i64::MIN, 0));
}

#[test]
fn health_reports_ages_and_subscriptions() {
    let mut record = ConnectionInfo::with_identity(3, 1_000);
    record.subscribe(&strings(&["navigation", "all"]));
    let health = record.health(11_000, 30_000);
    assert_eq!(health.connection_id, 3);
    assert!(health.is_healthy);
    assert_eq!(health.connected_duration, 10_000);
    assert_eq!(health.last_ping_duration, None);
    assert_eq!(health.subscription_count, 2);
    assert_eq!(health.subscriptions, strings(&["navigation", "all"]));
}

#[test]
fn health_goes_by_the_last_ping_where_there_is_one() {
    let mut record = ConnectionInfo::with_identity(3, 1_000);
    assert!(!record.health(31_000, 30_000).is_healthy);
    assert!(record.health(30_999, 30_000).is_healthy);
    record.record_ping(20_000);
    let health = record.health(31_000, 30_000);
    assert!(health.is_healthy);
    assert_eq!(health.connected_duration, 30_000);
    assert_eq!(health.last_ping_duration, Some(11_000));
    assert!(!record.health(50_000, 30_000).is_healthy);
}

#[test]
fn health_of_a_connection_from_the_future_has_negative_ages() {
    let record = ConnectionInfo::with_identity(3, 5_000);
    let health = record.health(2_000, 30_000);
    assert_eq!(health.connected_duration, -3_000);
    assert!(health.is_healthy);
}

#[test]
fn snapshot_copies_every_field() {
    let mut record = ConnectionInfo::with_identity(9, 100);
    record.record_ping(200);
    record.subscribe(&strings(&["a", "b"]));
    record.metadata.push(("agent".to_string(), "test".to_string()));
    let copy = record.snapshot();
    assert_eq!(copy.id, 9);
    assert_eq!(copy.connected_at, 100);
    assert_eq!(copy.last_ping, Some(200));
    assert_eq!(copy.subscriptions, strings(&["a", "b"]));
    assert_eq!(copy.metadata, vec![("agent".to_string(), "test".to_string())]);
}

#[test]
fn well_formed_records_have_no_duplicates() {
    let mut record = ConnectionInfo::with_identity(1, 0);
    assert!(record.is_well_formed());
    record.subscribe(&strings(&["a", "b"]));
    record.metadata.push(("k".to_string(), "v".to_string()));
    record.metadata.push(("l".to_string(), "v".to_string()));
    assert!(record.is_well_formed());
    record.subscriptions.push("a".to_string());
    assert!(!record.is_well_formed());
    record.subscriptions.pop();
    record.metadata.push(("k".to_string(), "w".to_string()));
    assert!(!record.is_well_formed());
}

#[test]
fn all_distinct_looks_for_a_repeated_string() {
    assert!(connection_hub::record::all_distinct(&strings(&[])));
    assert!(connection_hub::record::all_distinct(&strings(&["a", "b", "c"])));
    assert!(!connection_hub::record::all_distinct(&strings(&["a", "b", "a"])));
    assert!(!connection_hub::record::all_distinct(&strings(&["a", "b", "b"])));
}

#[test]
fn subscribe_then_unsubscribe_of_a_list_restores_the_subscriptions() {
    let mut record = ConnectionInfo::with_identity(1, 0);
    record.subscribe(&strings(&["navigation", "all"]));
    let before = record.subscriptions.clone();
    let request = strings(&["data:a", "filesystem", "data:a", "data:b"]);
    record.subscribe(&request);
    assert_eq!(
        record.subscriptions,
        strings(&["navigation", "all", "data:a", "filesystem", "data:b"])
    );
    record.unsubscribe(&request);
    assert_eq!(record.subscriptions, before);
}
