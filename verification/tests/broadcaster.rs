use connection_hub::{Broadcaster, SubscriptionTopic, WsMessage};

#[test]
fn delivered_is_the_reported_number_or_zero() {
    assert_eq!(Broadcaster::delivered(Some(3)), 3);
    assert_eq!(Broadcaster::delivered(Some(1)), 1);
    assert_eq!(Broadcaster::delivered(None), 0);
}

#[test]
fn publish_without_subscribers_reports_zero() {
    let mut broadcaster = Broadcaster::new(8);
    assert_eq!(broadcaster.subscriber_count(), 0);
    assert_eq!(broadcaster.publish(SubscriptionTopic::All, WsMessage::Ping), 0);
}

#[test]
fn publish_reports_the_number_of_subscriber_handles() {
    let mut broadcaster = Broadcaster::new(8);
    let first = broadcaster.subscribe();
    let second = broadcaster.subscribe();
    assert_eq!(broadcaster.subscriber_count(), 2);
    assert_eq!(broadcaster.publish(SubscriptionTopic::All, WsMessage::Ping), 2);
    drop(first);
    assert_eq!(broadcaster.publish(SubscriptionTopic::All, WsMessage::Ping), 1);
    drop(second);
    assert_eq!(broadcaster.subscriber_count(), 0);
}

#[test]
fn every_subscriber_reads_what_is_published_in_order() {
    let mut broadcaster = Broadcaster::new(8);
    let mut first = broadcaster.subscribe();
    let mut second = broadcaster.subscribe();
    broadcaster.publish(SubscriptionTopic::Navigation, WsMessage::Ping);
    broadcaster.publish(SubscriptionTopic::Direct(9), WsMessage::Pong);
    assert_eq!(first.try_recv().unwrap(), (SubscriptionTopic::Navigation, WsMessage::Ping));
    assert_eq!(first.try_recv().unwrap(), (SubscriptionTopic::Direct(9), WsMessage::Pong));
    assert!(first.try_recv().is_err());
    assert_eq!(second.try_recv().unwrap(), (SubscriptionTopic::Navigation, WsMessage::Ping));
    assert_eq!(second.try_recv().unwrap(), (SubscriptionTopic::Direct(9), WsMessage::Pong));
}

#[test]
fn a_subscriber_sees_only_what_is_published_after_it_subscribed() {
    let mut broadcaster = Broadcaster::new(8);
    let _keep = broadcaster.subscribe();
    broadcaster.publish(SubscriptionTopic::All, WsMessage::Ping);
    let mut late = broadcaster.subscribe();
    assert!(late.try_recv().is_err());
    broadcaster.publish(SubscriptionTopic::All, WsMessage::Pong);
    assert_eq!(late.try_recv().unwrap(), (SubscriptionTopic::All, WsMessage::Pong));
}

#[test]
fn a_slow_subscriber_loses_its_oldest_entries_and_is_told_how_many() {
    let mut broadcaster = Broadcaster::new(2);
    let mut slow = broadcaster.subscribe();
    for code in 0..5u16 {
        let message = WsMessage::Error { message: "e".to_string(), code: Some(code) };
        assert_eq!(broadcaster.publish(SubscriptionTopic::All, message), 1);
    }
    match slow.try_recv() {
        Err(tokio::sync::broadcast::error::TryRecvError::Lagged(skipped)) => {
            assert_eq!(skipped, 3)
        }
        other => panic!("expected a lag notice, got {:?}", other),
    }
    let (_, next) = slow.try_recv().unwrap();
    assert_eq!(next, WsMessage::Error { message: "e".to_string(), code: Some(3) });
    let (_, last) = slow.try_recv().unwrap();
    assert_eq!(last, WsMessage::Error { message: "e".to_string(), code: Some(4) });
}

#[test]
fn a_subscriber_may_fall_the_capacity_behind_without_loss() {
    let mut broadcaster = Broadcaster::new(4);
    let mut handle = broadcaster.subscribe();
    for code in 0..4u16 {
        let message = WsMessage::Error { message: "e".to_string(), code: Some(code) };
        broadcaster.publish(SubscriptionTopic::All, message);
    }
    for code in 0..4u16 {
        let (_, message) = handle.try_recv().unwrap();
        assert_eq!(message, WsMessage::Error { message: "e".to_string(), code: Some(code) });
    }
    assert!(handle.try_recv().is_err());
}

#[test]
fn a_subscriber_that_falls_further_behind_than_the_capacity_loses_the_oldest() {
    let mut broadcaster = Broadcaster::new(4);
    let mut handle = broadcaster.subscribe();
    for code in 0..6u16 {
        let message = WsMessage::Error { message: "e".to_string(), code: Some(code) };
        broadcaster.publish(SubscriptionTopic::All, message);
    }
    match handle.try_recv() {
        Err(tokio::sync::broadcast::error::TryRecvError::Lagged(skipped)) => {
            assert_eq!(skipped, 2)
        }
        other => panic!("expected a lag notice, got {:?}", other),
    }
    let (_, next) = handle.try_recv().unwrap();
    assert_eq!(next, WsMessage::Error { message: "e".to_string(), code: Some(2) });
}
