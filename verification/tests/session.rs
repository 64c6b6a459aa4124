use connection_hub::{
    ConnectionInfo, ConnectionSession, SessionAction, SessionEvent, SessionState,
    SubscriptionTopic, WebSocketService, WsConfig, WsMessage,
};

fn strings(items: &[&str]) -> Vec<String> {
    items.iter().map(|s| s.to_string()).collect()
}

fn service() -> WebSocketService {
    WebSocketService::new(Some(WsConfig {
        ping_interval: 30_000,
        connection_timeout: 60_000,
        max_connections: 10,
        buffer_size: Some(16),
    }))
}

fn active(service: &mut WebSocketService, id: u128) -> ConnectionSession {
    let mut session = service.accept_connection(id, 1_000).unwrap();
    let action = service.handle_socket(&mut session, SessionEvent::WelcomeSent, 1_000);
    assert_eq!(action, SessionAction::Continue);
    assert_eq!(session.state(), SessionState::Active);
    session
}

fn every_event() -> Vec<SessionEvent> {
    vec![
        SessionEvent::WelcomeSent,
        SessionEvent::WelcomeFailed,
        SessionEvent::Text(WsMessage::Subscribe { topics: strings(&["x"]) }),
        SessionEvent::Malformed,
        SessionEvent::PingFrame(vec![1, 2]),
        SessionEvent::PongSent,
        SessionEvent::PongFrame,
        SessionEvent::BinaryFrame,
        SessionEvent::CloseFrame,
        SessionEvent::ReadFailed,
        SessionEvent::StreamEnded,
        SessionEvent::WriteFailed,
        SessionEvent::EncodeFailed,
        SessionEvent::Delivery(SubscriptionTopic::All, WsMessage::Ping),
        SessionEvent::Lagged(3),
        SessionEvent::ChannelClosed,
        SessionEvent::Released,
    ]
}

#[test]
fn admitted_session_has_its_identifier_and_state() {
    let session = ConnectionSession::admitted(5);
    assert_eq!(session.id(), 5);
    assert_eq!(session.state(), SessionState::Admitted);
    assert!(!session.is_closed());
}

#[test]
fn registration_moves_an_admitted_session_to_registered() {
    let mut service = service();
    assert!(service.check_admission().is_ok());
    let mut session = ConnectionSession::admitted(5);
    assert_eq!(service.connection_count(), 0);
    let record = ConnectionInfo::with_identity(5, 700);
    assert!(record.is_well_formed());
    service.register(&mut session, record);
    assert_eq!(session.state(), SessionState::Registered);
    assert_eq!(session.id(), 5);
    assert_eq!(service.connection_count(), 1);
    assert_eq!(service.get_connections()[&5].connected_at, 700);
}

#[test]
fn welcome_names_the_connection() {
    let mut service = service();
    let session = service.accept_connection(21, 0).unwrap();
    assert_eq!(session.welcome(), WsMessage::ConnectionEstablished { connection_id: 21 });
}

#[test]
fn admitted_session_ignores_everything_but_release() {
    let mut service = service();
    service.accept_connection(5, 0).unwrap();
    for event in every_event() {
        let mut session = ConnectionSession::admitted(5);
        let released = event == SessionEvent::Released;
        let action = service.handle_socket(&mut session, event, 2_000);
        assert_eq!(action, SessionAction::Continue);
        if released {
            assert_eq!(session.state(), SessionState::Closed);
        } else {
            assert_eq!(session.state(), SessionState::Admitted);
        }
    }
    // the record of the registered connection with the same identifier stays
    assert_eq!(service.connection_count(), 1);
    assert!(service.get_connections()[&5].subscriptions.is_empty());
}

#[test]
fn registered_session_becomes_active_when_the_welcome_was_sent() {
    let mut service = service();
    let mut session = service.accept_connection(1, 0).unwrap();
    assert_eq!(session.state(), SessionState::Registered);
    let action = service.handle_socket(&mut session, SessionEvent::WelcomeSent, 10);
    assert_eq!(action, SessionAction::Continue);
    assert_eq!(session.state(), SessionState::Active);
    assert_eq!(service.connection_count(), 1);
}

#[test]
fn welcome_failure_short_circuits_to_closed() {
    for event in
        vec![SessionEvent::WelcomeFailed, SessionEvent::WriteFailed, SessionEvent::EncodeFailed]
    {
        let mut service = service();
        let mut session = service.accept_connection(1, 0).unwrap();
        let action = service.handle_socket(&mut session, event, 10);
        assert_eq!(action, SessionAction::Close);
        assert_eq!(session.state(), SessionState::Closed);
        assert!(session.is_closed());
        assert_eq!(service.connection_count(), 0);
    }
}

#[test]
fn registered_session_ignores_frames_and_deliveries() {
    let mut service = service();
    let mut session = service.accept_connection(1, 0).unwrap();
    service.handle_subscription(1, strings(&["all"])).unwrap();
    let events = vec![
        SessionEvent::Text(WsMessage::Subscribe { topics: strings(&["x"]) }),
        SessionEvent::PingFrame(vec![1]),
        SessionEvent::PongFrame,
        SessionEvent::PongSent,
        SessionEvent::CloseFrame,
        SessionEvent::Delivery(SubscriptionTopic::All, WsMessage::Ping),
        SessionEvent::ChannelClosed,
    ];
    for event in events {
        let action = service.handle_socket(&mut session, event, 10);
        assert_eq!(action, SessionAction::Continue);
        assert_eq!(session.state(), SessionState::Registered);
    }
    let record = &service.get_connections()[&1];
    assert_eq!(record.subscriptions, strings(&["all"]));
    assert_eq!(record.last_ping, None);
}

#[test]
fn registered_session_closes_on_release() {
    let mut service = service();
    let mut session = service.accept_connection(1, 0).unwrap();
    let action = service.handle_socket(&mut session, SessionEvent::Released, 10);
    assert_eq!(action, SessionAction::Continue);
    assert_eq!(session.state(), SessionState::Closed);
    assert_eq!(service.connection_count(), 0);
}

#[test]
fn active_session_serves_subscribe_and_unsubscribe() {
    let mut service = service();
    let mut session = active(&mut service, 1);
    let subscribe = SessionEvent::Text(WsMessage::Subscribe { topics: strings(&["a", "b"]) });
    assert_eq!(service.handle_socket(&mut session, subscribe, 10), SessionAction::Continue);
    assert_eq!(service.get_connections()[&1].subscriptions, strings(&["a", "b"]));
    let unsubscribe = SessionEvent::Text(WsMessage::Unsubscribe { topics: strings(&["a"]) });
    assert_eq!(service.handle_socket(&mut session, unsubscribe, 10), SessionAction::Continue);
    assert_eq!(service.get_connections()[&1].subscriptions, strings(&["b"]));
    assert_eq!(session.state(), SessionState::Active);
}

#[test]
fn active_session_answers_a_ping_message_with_a_direct_pong() {
    let mut service = service();
    let mut session = active(&mut service, 1);
    let mut handle = service.subscribe();
    let action = service.handle_socket(&mut session, SessionEvent::Text(WsMessage::Ping), 10);
    assert_eq!(action, SessionAction::Continue);
    let (topic, message) = handle.try_recv().unwrap();
    assert_eq!(topic, SubscriptionTopic::Direct(1));
    assert_eq!(message, WsMessage::Pong);
    // the pong comes back as a delivery and is forwarded to the client
    let action = service.handle_socket(&mut session, SessionEvent::Delivery(topic, message), 10);
    assert_eq!(action, SessionAction::Send(WsMessage::Pong));
}

#[test]
fn malformed_frames_are_discarded_and_the_session_goes_on() {
    let mut service = service();
    let mut session = active(&mut service, 1);
    let action = service.handle_socket(&mut session, SessionEvent::Malformed, 10);
    assert_eq!(action, SessionAction::Continue);
    assert_eq!(session.state(), SessionState::Active);
    assert_eq!(service.connection_count(), 1);
}

#[test]
fn custom_events_are_handed_to_the_application() {
    let mut service = service();
    let mut session = active(&mut service, 1);
    let data = serde_json::Value::Bool(true);
    let event = SessionEvent::Text(WsMessage::Custom { event: "e".to_string(), data: data.clone() });
    let action = service.handle_socket(&mut session, event, 10);
    assert_eq!(action, SessionAction::Dispatch { event: "e".to_string(), data });
    assert_eq!(session.state(), SessionState::Active);
    assert!(service.get_connections()[&1].subscriptions.is_empty());
}

#[test]
fn binary_frames_lag_notices_and_outbound_kinds_change_nothing() {
    let mut service = service();
    let mut session = active(&mut service, 1);
    let events = vec![
        SessionEvent::BinaryFrame,
        SessionEvent::Lagged(12),
        SessionEvent::WelcomeSent,
        SessionEvent::WelcomeFailed,
        SessionEvent::Text(WsMessage::Pong),
    ];
    for event in events {
        assert_eq!(service.handle_socket(&mut session, event, 10), SessionAction::Continue);
        assert_eq!(session.state(), SessionState::Active);
    }
    let record = &service.get_connections()[&1];
    assert!(record.subscriptions.is_empty());
    assert_eq!(record.last_ping, None);
}

#[test]
fn transport_ping_is_answered_with_a_pong_of_the_same_payload() {
    let mut service = service();
    let mut session = active(&mut service, 1);
    let action = service.handle_socket(&mut session, SessionEvent::PingFrame(vec![7, 8, 9]), 10);
    assert_eq!(action, SessionAction::SendPong(vec![7, 8, 9]));
    assert_eq!(service.get_connections()[&1].last_ping, None);
    let action = service.handle_socket(&mut session, SessionEvent::PongSent, 4_000);
    assert_eq!(action, SessionAction::Continue);
    assert_eq!(service.get_connections()[&1].last_ping, Some(4_000));
}

#[test]
fn a_pong_that_cannot_be_written_ends_the_session() {
    let mut service = service();
    let mut session = active(&mut service, 1);
    service.handle_socket(&mut session, SessionEvent::PingFrame(vec![]), 10);
    let action = service.handle_socket(&mut session, SessionEvent::WriteFailed, 10);
    assert_eq!(action, SessionAction::Close);
    assert_eq!(session.state(), SessionState::Draining);
    assert_eq!(service.get_connections()[&1].last_ping, None);
}

#[test]
fn transport_pong_updates_the_last_ping() {
    let mut service = service();
    let mut session = active(&mut service, 1);
    let action = service.handle_socket(&mut session, SessionEvent::PongFrame, 6_000);
    assert_eq!(action, SessionAction::Continue);
    assert_eq!(service.get_connections()[&1].last_ping, Some(6_000));
}

#[test]
fn deliveries_are_forwarded_only_where_the_topic_matches() {
    let mut service = service();
    let mut session = active(&mut service, 1);
    let message = WsMessage::SchemaReloaded { schema: "menu".to_string() };
    let delivery = SessionEvent::Delivery(SubscriptionTopic::Navigation, message.clone());
    assert_eq!(service.handle_socket(&mut session, delivery.clone(), 10), SessionAction::Continue);
    service.handle_subscription(1, strings(&["navigation"])).unwrap();
    assert_eq!(
        service.handle_socket(&mut session, delivery.clone(), 10),
        SessionAction::Send(message)
    );
    service.handle_unsubscription(1, strings(&["navigation"])).unwrap();
    assert_eq!(service.handle_socket(&mut session, delivery, 10), SessionAction::Continue);
}

#[test]
fn a_connection_removed_from_the_registry_receives_nothing_more() {
    let mut service = service();
    let mut session = active(&mut service, 1);
    service.handle_subscription(1, strings(&["all"])).unwrap();
    service.cleanup_connection(1);
    let all = SessionEvent::Delivery(SubscriptionTopic::All, WsMessage::Ping);
    assert_eq!(service.handle_socket(&mut session, all, 10), SessionAction::Continue);
    let direct = SessionEvent::Delivery(SubscriptionTopic::Direct(1), WsMessage::Ping);
    assert_eq!(service.handle_socket(&mut session, direct, 10), SessionAction::Continue);
}

#[test]
fn each_terminating_event_moves_an_active_session_to_draining() {
    let events = vec![
        SessionEvent::CloseFrame,
        SessionEvent::ReadFailed,
        SessionEvent::StreamEnded,
        SessionEvent::WriteFailed,
        SessionEvent::EncodeFailed,
        SessionEvent::ChannelClosed,
    ];
    for event in events {
        let mut service = service();
        let mut session = active(&mut service, 1);
        let action = service.handle_socket(&mut session, event, 10);
        assert_eq!(action, SessionAction::Close);
        assert_eq!(session.state(), SessionState::Draining);
        // the record stays until the session is released
        assert_eq!(service.connection_count(), 1);
    }
}

#[test]
fn a_draining_session_attempts_nothing_and_closes_on_release() {
    let mut service = service();
    let mut session = active(&mut service, 1);
    service.handle_subscription(1, strings(&["all"])).unwrap();
    service.handle_socket(&mut session, SessionEvent::CloseFrame, 10);
    for event in every_event() {
        if event == SessionEvent::Released {
            continue;
        }
        let action = service.handle_socket(&mut session, event, 20);
        assert_eq!(action, SessionAction::Continue);
        assert_eq!(session.state(), SessionState::Draining);
    }
    let record = &service.get_connections()[&1];
    assert_eq!(record.subscriptions, strings(&["all"]));
    assert_eq!(record.last_ping, None);
    let action = service.handle_socket(&mut session, SessionEvent::Released, 30);
    assert_eq!(action, SessionAction::Continue);
    assert_eq!(session.state(), SessionState::Closed);
    assert_eq!(service.connection_count(), 0);
}

#[test]
fn an_active_session_that_is_released_closes_at_once() {
    let mut service = service();
    let mut session = active(&mut service, 1);
    let action = service.handle_socket(&mut session, SessionEvent::Released, 10);
    assert_eq!(action, SessionAction::Continue);
    assert!(session.is_closed());
    assert_eq!(service.connection_count(), 0);
}

#[test]
fn a_closed_session_stays_closed_and_touches_nothing() {
    let mut service = service();
    let mut session = active(&mut service, 1);
    service.handle_socket(&mut session, SessionEvent::Released, 10);
    // another connection now lives under the same identifier
    service.accept_connection(1, 50).unwrap();
    for event in every_event() {
        let action = service.handle_socket(&mut session, event, 60);
        assert_eq!(action, SessionAction::Continue);
        assert_eq!(session.state(), SessionState::Closed);
    }
    assert_eq!(service.connection_count(), 1);
    let record = &service.get_connections()[&1];
    assert!(record.subscriptions.is_empty());
    assert_eq!(record.last_ping, None);
}

#[test]
fn a_session_reaped_while_active_closes_without_harm() {
    let mut service = service();
    let mut session = active(&mut service, 1);
    assert_eq!(service.connection_cleanup_cycle(1_000_000), vec![1]);
    let subscribe = SessionEvent::Text(WsMessage::Subscribe { topics: strings(&["a"]) });
    assert_eq!(service.handle_socket(&mut session, subscribe, 10), SessionAction::Continue);
    assert_eq!(service.handle_socket(&mut session, SessionEvent::PongFrame, 10), SessionAction::Continue);
    assert_eq!(service.connection_count(), 0);
    service.handle_socket(&mut session, SessionEvent::StreamEnded, 10);
    service.handle_socket(&mut session, SessionEvent::Released, 10);
    assert!(session.is_closed());
    assert_eq!(service.connection_count(), 0);
}
