//! The life of one connection, as a state machine.
//!
//! A session is `Admitted` once the capacity check has passed, `Registered`
//! once its record is in the registry and the welcome is due, `Active`
//! while frames and deliveries are served, `Draining` once the stream or
//! the broadcaster has failed or the client has closed, and `Closed` once
//! its record is gone. The machine decides; whoever drives it reads the
//! stream and the broadcaster, hands over what happened as an event, and
//! carries out the action that comes back.

use vstd::prelude::*;
use crate::error::ServiceError;
use crate::identity::{ConnectionId, Timestamp};
use crate::message::WsMessage;
use crate::record::{ConnectionInfo, ConnectionRecord};
use crate::registry::updated;
use crate::service::{
    acceptance, accepted, admission, after_message, published_after_message, Handled,
    WebSocketService,
};
use crate::topic::{SubscriptionTopic, Topic};

verus! {

/// Where a session stands.
#[derive(Debug, Clone, Copy, PartialEq, Eq, Structural)]
pub enum SessionState {
    /// The capacity check has passed; the record is not yet in the
    /// registry.
    Admitted,
    /// The record is in the registry and the welcome is to be sent.
    Registered,
    /// Frames from the client and deliveries from the broadcaster are
    /// served.
    Active,
    /// The session is ending: nothing more is read or written.
    Draining,
    /// The record is out of the registry. Nothing follows.
    Closed,
}

/// What happened on the stream of a connection or on its subscriber handle.
#[derive(Debug, Clone, PartialEq)]
pub enum SessionEvent {
    /// The welcome was written to the stream.
    WelcomeSent,
    /// The welcome could not be encoded or written.
    WelcomeFailed,
    /// A text frame came in and held this message.
    Text(WsMessage),
    /// A text frame came in that holds no message.
    Malformed,
    /// A ping of the transport came in, with this payload.
    PingFrame(Vec<u8>),
    /// The pong that answers a ping of the transport was written.
    PongSent,
    /// A pong of the transport came in.
    PongFrame,
    /// A binary frame came in.
    BinaryFrame,
    /// The client closed the stream.
    CloseFrame,
    /// Reading from the stream failed.
    ReadFailed,
    /// The stream has ended.
    StreamEnded,
    /// Writing to the stream failed.
    WriteFailed,
    /// A message that was to be forwarded could not be encoded.
    EncodeFailed,
    /// The broadcaster delivered this message, published on this topic.
    Delivery(SubscriptionTopic, WsMessage),
    /// The subscriber handle fell behind and skipped this many deliveries.
    Lagged(u64),
    /// The broadcaster is closed for good.
    ChannelClosed,
    /// The stream and the subscriber handle have been let go.
    Released,
}

/// What is to be done next for a connection.
#[derive(Debug, Clone, PartialEq)]
pub enum SessionAction {
    /// Wait for the next event.
    Continue,
    /// Write this message to the stream, as a text frame.
    Send(WsMessage),
    /// Write a pong of the transport with this payload.
    SendPong(Vec<u8>),
    /// Hand this custom event of the client to the application.
    Dispatch { event: String, data: serde_json::Value },
    /// Stop reading and writing, let go of the stream and of the
    /// subscriber handle, and report `Released`.
    Close,
}

/// The session of one connection.
#[derive(Debug)]
pub struct ConnectionSession {
    id: ConnectionId,
    state: SessionState,
}

/// Whether an event ends a session that is `Active`.
pub open spec fn ends_session(event: SessionEvent) -> bool {
    ||| event is CloseFrame
    ||| event is ReadFailed
    ||| event is StreamEnded
    ||| event is WriteFailed
    ||| event is EncodeFailed
    ||| event is ChannelClosed
}

/// Whether an event ends a session whose welcome was not sent yet.
pub open spec fn fails_welcome(event: SessionEvent) -> bool {
    event is WelcomeFailed || event is WriteFailed || event is EncodeFailed
}

/// The state after an event.
pub open spec fn next_state(state: SessionState, event: SessionEvent) -> SessionState {
    match state {
        SessionState::Admitted => if event is Released {
            SessionState::Closed
        } else {
            SessionState::Admitted
        },
        SessionState::Registered => if event is WelcomeSent {
            SessionState::Active
        } else if fails_welcome(event) || event is Released {
            SessionState::Closed
        } else {
            SessionState::Registered
        },
        SessionState::Active => if ends_session(event) {
            SessionState::Draining
        } else if event is Released {
            SessionState::Closed
        } else {
            SessionState::Active
        },
        SessionState::Draining => if event is Released {
            SessionState::Closed
        } else {
            SessionState::Draining
        },
        SessionState::Closed => SessionState::Closed,
    }
}

/// The registry after an event of the session of `id`.
pub open spec fn next_registry(
    state: SessionState,
    event: SessionEvent,
    id: ConnectionId,
    records: Map<ConnectionId, ConnectionRecord>,
    now: Timestamp,
) -> Map<ConnectionId, ConnectionRecord> {
    match state {
        SessionState::Admitted => records,
        SessionState::Registered => if fails_welcome(event) || event is Released {
            records.remove(id)
        } else {
            records
        },
        SessionState::Active => match event {
            SessionEvent::Text(message) => after_message(records, id, message),
            SessionEvent::PongSent => updated(
                records,
                id,
                |record: ConnectionRecord| record.pinged(now),
            ),
            SessionEvent::PongFrame => updated(
                records,
                id,
                |record: ConnectionRecord| record.pinged(now),
            ),
            SessionEvent::Released => records.remove(id),
            _ => records,
        },
        SessionState::Draining => if event is Released {
            records.remove(id)
        } else {
            records
        },
        SessionState::Closed => records,
    }
}

/// What was handed to the broadcaster after an event of the session of
/// `id`: only a message of the client of an active session can publish
/// anything, and of those only a `Ping`, which is answered.
pub open spec fn next_published(
    state: SessionState,
    event: SessionEvent,
    id: ConnectionId,
    records: Map<ConnectionId, ConnectionRecord>,
    log: Seq<(Topic, WsMessage)>,
) -> Seq<(Topic, WsMessage)> {
    match (state, event) {
        (SessionState::Active, SessionEvent::Text(message)) => published_after_message(
            log,
            records,
            id,
            message,
        ),
        _ => log,
    }
}

/// What is to be done after an event of the session of `id`.
pub open spec fn next_action(
    state: SessionState,
    event: SessionEvent,
    id: ConnectionId,
    records: Map<ConnectionId, ConnectionRecord>,
) -> SessionAction {
    match state {
        SessionState::Registered => if fails_welcome(event) {
            SessionAction::Close
        } else {
            SessionAction::Continue
        },
        SessionState::Active => match event {
            SessionEvent::Text(WsMessage::Custom { event, data }) => SessionAction::Dispatch {
                event,
                data,
            },
            SessionEvent::PingFrame(payload) => SessionAction::SendPong(payload),
            SessionEvent::Delivery(topic, message) => if records.contains_key(id) && topic@.reaches(
                id,
                records[id].subscriptions,
            ) {
                SessionAction::Send(message)
            } else {
                SessionAction::Continue
            },
            _ => if ends_session(event) {
                SessionAction::Close
            } else {
                SessionAction::Continue
            },
        },
        _ => SessionAction::Continue,
    }
}

impl ConnectionSession {
    /// The connection that the session serves.
    pub closed spec fn spec_id(&self) -> ConnectionId {
        self.id
    }

    /// Where the session stands.
    pub closed spec fn spec_state(&self) -> SessionState {
        self.state
    }

    /// The session of a connection that has passed admission.
    pub fn admitted(id: ConnectionId) -> (r: Self)
        ensures
            r.spec_id() == id,
            r.spec_state() == SessionState::Admitted,
    {
        ConnectionSession { id, state: SessionState::Admitted }
    }

    /// The connection that the session serves.
    #[verifier::when_used_as_spec(spec_id)]
    pub fn id(&self) -> (r: ConnectionId)
        ensures
            r == self.spec_id(),
    {
        self.id
    }

    /// Where the session stands.
    #[verifier::when_used_as_spec(spec_state)]
    pub fn state(&self) -> (r: SessionState)
        ensures
            r == self.spec_state(),
    {
        self.state
    }

    /// Whether the session has ended for good.
    pub fn is_closed(&self) -> (r: bool)
        ensures
            r == (self.spec_state() == SessionState::Closed),
    {
        match self.state {
            SessionState::Closed => true,
            _ => false,
        }
    }

    /// The welcome that a registered connection is sent first.
    pub fn welcome(&self) -> (r: WsMessage)
        ensures
            r == (WsMessage::ConnectionEstablished { connection_id: self.spec_id() }),
    {
        WsMessage::ConnectionEstablished { connection_id: self.id }
    }
}

impl WebSocketService {
    /// Registers a connection that has passed admission: its record goes
    /// into the registry, under its identifier, which no live connection
    /// has, and its session is `Registered`.
    pub fn register(&mut self, session: &mut ConnectionSession, record: ConnectionInfo)
        requires
            old(self).wf(),
            acceptance(old(self)@.registry, old(self).spec_config(), record.id) is Ok,
            old(session).spec_state() == SessionState::Admitted,
            record.id == old(session).spec_id(),
            record@.wf(),
        ensures
            final(self)@.registry == old(self)@.registry.insert(record.id, record@),
            final(self)@.registry.len() == old(self)@.registry.len() + 1,
            final(self).spec_config() == old(self).spec_config(),
            final(self).spec_started_at() == old(self).spec_started_at(),
            final(self).published() == old(self).published(),
            final(self).wf(),
            final(session).spec_id() == old(session).spec_id(),
            final(session).spec_state() == SessionState::Registered,
    {
        self.insert_record(record);
        session.state = SessionState::Registered;
    }

    /// Admits a connection with the given identifier at `now`, if there is
    /// room and no live connection has the identifier: its record goes into
    /// the registry, without a ping seen and without subscriptions, and its
    /// session is `Registered`. Where it is refused the registry is left as
    /// it is.
    pub fn accept_connection(&mut self, id: ConnectionId, now: Timestamp) -> (r: Result<
        ConnectionSession,
        ServiceError,
    >)
        requires
            old(self).wf(),
        ensures
            final(self)@.registry == accepted(old(self)@.registry, old(self).spec_config(), id, now),
            final(self).spec_config() == old(self).spec_config(),
            final(self).spec_started_at() == old(self).spec_started_at(),
            final(self).published() == old(self).published(),
            final(self).wf(),
            match r {
                Ok(session) => {
                    &&& acceptance(old(self)@.registry, old(self).spec_config(), id) is Ok
                    &&& session.spec_id() == id
                    &&& session.spec_state() == SessionState::Registered
                    &&& final(self)@.registry.len() == old(self)@.registry.len() + 1
                },
                Err(e) => acceptance(old(self)@.registry, old(self).spec_config(), id) == Err::<
                    (),
                    ServiceError,
                >(e),
            },
    {
        match self.check_admission() {
            Err(e) => Err(e),
            Ok(()) => {
                if self.contains(id) {
                    Err(ServiceError::IdentifierInUse)
                } else {
                    let mut session = ConnectionSession::admitted(id);
                    self.register(&mut session, ConnectionInfo::with_identity(id, now));
                    Ok(session)
                }
            },
        }
    }

    /// Admits a new connection, if there is room, under a random
    /// identifier and with the time of the clock. Which identifier and
    /// which time is not known beforehand; the rest is as for
    /// `accept_connection`. Where there is room and no connection lives it
    /// succeeds; a draw that comes upon the identifier of a live connection
    /// is refused.
    pub fn handle_connection(&mut self) -> (r: Result<ConnectionSession, ServiceError>)
        requires
            old(self).wf(),
        ensures
            final(self).spec_config() == old(self).spec_config(),
            final(self).spec_started_at() == old(self).spec_started_at(),
            final(self).published() == old(self).published(),
            final(self).wf(),
            match r {
                Ok(session) => {
                    &&& acceptance(old(self)@.registry, old(self).spec_config(), session.spec_id()) is Ok
                    &&& session.spec_state() == SessionState::Registered
                    &&& final(self)@.registry.contains_key(session.spec_id())
                    &&& final(self)@.registry == accepted(
                        old(self)@.registry,
                        old(self).spec_config(),
                        session.spec_id(),
                        final(self)@.registry[session.spec_id()].connected_at,
                    )
                    &&& final(self)@.registry.len() == old(self)@.registry.len() + 1
                },
                Err(e) => {
                    &&& final(self)@.registry == old(self)@.registry
                    &&& match admission(old(self)@.registry.len(), old(self).spec_config()) {
                        Err(refusal) => e == refusal,
                        Ok(()) => e == ServiceError::IdentifierInUse && old(self)@.registry.len() > 0,
                    }
                },
            },
    {
        match self.check_admission() {
            Err(e) => Err(e),
            Ok(()) => {
                let record: ConnectionInfo = ConnectionInfo::new();
                if self.contains(record.id) {
                    assert(old(self)@.registry.dom().contains(record.id));
                    assert(old(self)@.registry.len() > 0) by {
                        if old(self)@.registry.len() == 0 {
                            assert(old(self)@.registry.dom() =~= Set::<ConnectionId>::empty());
                        }
                    }
                    Err(ServiceError::IdentifierInUse)
                } else {
                    let mut session = ConnectionSession::admitted(record.id);
                    self.register(&mut session, record);
                    Ok(session)
                }
            },
        }
    }

    /// One turn of the session of a connection: takes what happened, at
    /// `now`, and decides what the session, the registry and the driver do
    /// next. An event that does not belong to the state of the session
    /// changes nothing.
    pub fn handle_socket(
        &mut self,
        session: &mut ConnectionSession,
        event: SessionEvent,
        now: Timestamp,
    ) -> (action: SessionAction)
        requires
            old(self).wf(),
        ensures
            final(session).spec_id() == old(session).spec_id(),
            final(session).spec_state() == next_state(old(session).spec_state(), event),
            final(self)@.registry == next_registry(
                old(session).spec_state(),
                event,
                old(session).spec_id(),
                old(self)@.registry,
                now,
            ),
            action == next_action(
                old(session).spec_state(),
                event,
                old(session).spec_id(),
                old(self)@.registry,
            ),
            final(self).published() == next_published(
                old(session).spec_state(),
                event,
                old(session).spec_id(),
                old(self)@.registry,
                old(self).published(),
            ),
            final(self).spec_config() == old(self).spec_config(),
            final(self).spec_started_at() == old(self).spec_started_at(),
            final(self).wf(),
    {
        let id: ConnectionId = session.id;
        match session.state {
            SessionState::Admitted => match event {
                SessionEvent::Released => {
                    session.state = SessionState::Closed;
                    SessionAction::Continue
                },
                _ => SessionAction::Continue,
            },
            SessionState::Registered => match event {
                SessionEvent::WelcomeSent => {
                    session.state = SessionState::Active;
                    SessionAction::Continue
                },
                SessionEvent::WelcomeFailed | SessionEvent::WriteFailed
                | SessionEvent::EncodeFailed => {
                    self.cleanup_connection(id);
                    session.state = SessionState::Closed;
                    SessionAction::Close
                },
                SessionEvent::Released => {
                    self.cleanup_connection(id);
                    session.state = SessionState::Closed;
                    SessionAction::Continue
                },
                _ => SessionAction::Continue,
            },
            SessionState::Active => match event {
                SessionEvent::Text(message) => match self.handle_incoming_message(message, id) {
                    Ok(Handled::Custom { event, data }) => SessionAction::Dispatch { event, data },
                    _ => SessionAction::Continue,
                },
                SessionEvent::PingFrame(payload) => SessionAction::SendPong(payload),
                SessionEvent::PongSent | SessionEvent::PongFrame => {
                    self.update_last_ping(id, now);
                    SessionAction::Continue
                },
                SessionEvent::Delivery(topic, message) => {
                    if self.should_send_to_connection(&topic, id) {
                        SessionAction::Send(message)
                    } else {
                        SessionAction::Continue
                    }
                },
                SessionEvent::CloseFrame | SessionEvent::ReadFailed | SessionEvent::StreamEnded
                | SessionEvent::WriteFailed | SessionEvent::EncodeFailed
                | SessionEvent::ChannelClosed => {
                    session.state = SessionState::Draining;
                    SessionAction::Close
                },
                SessionEvent::Released => {
                    self.cleanup_connection(id);
                    session.state = SessionState::Closed;
                    SessionAction::Continue
                },
                _ => SessionAction::Continue,
            },
            SessionState::Draining => match event {
                SessionEvent::Released => {
                    self.cleanup_connection(id);
                    session.state = SessionState::Closed;
                    SessionAction::Continue
                },
                _ => SessionAction::Continue,
            },
            SessionState::Closed => SessionAction::Continue,
        }
    }
}

} // verus!
