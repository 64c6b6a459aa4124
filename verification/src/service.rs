//! The service: admission, the registry of live connections, publishing,
//! and the rounds of maintenance.

use vstd::prelude::*;
use std::collections::HashMap;
use tokio::sync::broadcast::Receiver;
use crate::broadcaster::Broadcaster;
use crate::config::{WsConfig, HARD_CONNECTION_CEILING};
use crate::error::ServiceError;
use crate::identity::{clock_millis, ConnectionId, Millis, Timestamp};
use crate::message::WsMessage;
use crate::record::{ConnectionInfo, ConnectionRecord};
use crate::registry::{
    counted_topics, health_reports_of, healthy_ids, reaped, recipients, record_views, records_wf,
    stale_ids, subscribers, topic_counts_of, updated, ConnectionRegistry,
};
use crate::stats::{
    BroadcasterStats, ConnectionHealth, HealthSummary, MemoryUsage, ServiceDiagnostics,
    ServiceStats,
};
use crate::text::texts;
use crate::topic::{SubscriptionTopic, Topic};

verus! {

/// Whether a connection may be admitted while `count` connections live:
/// not at or above the hard ceiling, and not at or above the configured
/// maximum. The two refusals are told apart.
pub open spec fn admission(count: nat, config: WsConfig) -> Result<(), ServiceError> {
    if count >= HARD_CONNECTION_CEILING {
        Err(ServiceError::TooManyConnections)
    } else if count >= config.max_connections {
        Err(ServiceError::MaxConnectionsReached)
    } else {
        Ok(())
    }
}

/// Whether a connection may be admitted under the identifier `id`: there
/// has to be room, and no live connection may have the identifier, since
/// identifiers are never used twice. Want of room is reported first.
pub open spec fn acceptance(
    records: Map<ConnectionId, ConnectionRecord>,
    config: WsConfig,
    id: ConnectionId,
) -> Result<(), ServiceError> {
    match admission(records.len(), config) {
        Err(e) => Err(e),
        Ok(()) => if records.contains_key(id) {
            Err(ServiceError::IdentifierInUse)
        } else {
            Ok(())
        },
    }
}

/// The registry after a connection with the identifier `id` asked for
/// admission at `now`: with the fresh record of that connection where it
/// was admitted, unchanged where it was refused.
pub open spec fn accepted(
    records: Map<ConnectionId, ConnectionRecord>,
    config: WsConfig,
    id: ConnectionId,
    now: Timestamp,
) -> Map<ConnectionId, ConnectionRecord> {
    if acceptance(records, config, id) is Ok {
        records.insert(id, ConnectionRecord::fresh(id, now))
    } else {
        records
    }
}

/// What was handed to the broadcaster after a message was sent to the
/// connection `id` alone: one more entry, the message on the direct topic
/// of `id`, where there is such a connection, and nothing more where there
/// is none.
pub open spec fn published_after_direct(
    log: Seq<(Topic, WsMessage)>,
    records: Map<ConnectionId, ConnectionRecord>,
    id: ConnectionId,
    message: WsMessage,
) -> Seq<(Topic, WsMessage)> {
    if records.contains_key(id) {
        log.push((Topic::Direct(id), message))
    } else {
        log
    }
}

/// What was handed to the broadcaster after a message from the connection
/// `id` was served: a `Ping` of a connection that is there is answered by
/// one `Pong` on its direct topic, and nothing else publishes anything.
pub open spec fn published_after_message(
    log: Seq<(Topic, WsMessage)>,
    records: Map<ConnectionId, ConnectionRecord>,
    id: ConnectionId,
    message: WsMessage,
) -> Seq<(Topic, WsMessage)> {
    if message is Ping {
        published_after_direct(log, records, id, WsMessage::Pong)
    } else {
        log
    }
}

/// What was handed to the broadcaster after a round of the pinger: one
/// `Ping` on the catch-all topic where a connection lives, nothing more
/// where none does.
pub open spec fn published_after_ping_round(
    log: Seq<(Topic, WsMessage)>,
    records: Map<ConnectionId, ConnectionRecord>,
) -> Seq<(Topic, WsMessage)> {
    if records.len() == 0 {
        log
    } else {
        log.push((Topic::All, WsMessage::Ping))
    }
}

/// Whether a message from a client can only be served for a connection
/// that is in the registry.
pub open spec fn needs_record(message: WsMessage) -> bool {
    message is Ping || message is Subscribe || message is Unsubscribe
}

/// The registry after a message from the connection `id` was served: a
/// request to subscribe or to unsubscribe changes the subscriptions of that
/// connection, and nothing else changes anything.
pub open spec fn after_message(
    records: Map<ConnectionId, ConnectionRecord>,
    id: ConnectionId,
    message: WsMessage,
) -> Map<ConnectionId, ConnectionRecord> {
    match message {
        WsMessage::Subscribe { topics } => updated(
            records,
            id,
            |record: ConnectionRecord| record.subscribed(texts(topics@)),
        ),
        WsMessage::Unsubscribe { topics } => updated(
            records,
            id,
            |record: ConnectionRecord| record.unsubscribed(texts(topics@)),
        ),
        _ => records,
    }
}

/// What was done with a message that a client sent.
#[derive(Debug, Clone, PartialEq)]
pub enum Handled {
    /// It was a `Ping`, and a `Pong` was published to the sender alone.
    Answered,
    /// It was a request to subscribe, and the subscriptions were brought
    /// up to date.
    Subscribed,
    /// It was a request to unsubscribe, and the subscriptions were brought
    /// up to date.
    Unsubscribed,
    /// It was a custom event, which is for the application to act on.
    Custom { event: String, data: serde_json::Value },
    /// It was of a kind that only goes out to clients, and was ignored.
    Ignored,
}

/// What is done with a message of a client whose connection is there, or
/// that needs none.
pub open spec fn handled_as(message: WsMessage) -> Handled {
    match message {
        WsMessage::Ping => Handled::Answered,
        WsMessage::Subscribe { topics } => Handled::Subscribed,
        WsMessage::Unsubscribe { topics } => Handled::Unsubscribed,
        WsMessage::Custom { event, data } => Handled::Custom { event, data },
        _ => Handled::Ignored,
    }
}

/// What serving a message from the connection `id` returns.
pub open spec fn message_outcome(
    records: Map<ConnectionId, ConnectionRecord>,
    id: ConnectionId,
    message: WsMessage,
) -> Result<Handled, ServiceError> {
    if needs_record(message) && !records.contains_key(id) {
        Err(ServiceError::ConnectionNotFound)
    } else {
        Ok(handled_as(message))
    }
}

/// What sending a message to the connection `id` alone returns.
pub open spec fn direct_outcome(
    records: Map<ConnectionId, ConnectionRecord>,
    id: ConnectionId,
) -> Result<(), ServiceError> {
    if records.contains_key(id) {
        Ok(())
    } else {
        Err(ServiceError::ConnectionNotFound)
    }
}

/// The time that a service that was started at `started_at` has been up at
/// `now`, in milliseconds; none where `now` is before the start.
pub open spec fn uptime_at(started_at: Timestamp, now: Timestamp) -> Millis {
    if now >= started_at {
        (now - started_at) as u64
    } else {
        0
    }
}

/// The topic strings that some connection is subscribed to.
pub open spec fn subscribed_topics(records: Map<ConnectionId, ConnectionRecord>) -> Set<Seq<char>> {
    Set::new(|topic: Seq<char>| subscribers(records, topic).len() > 0)
}

/// The service. It owns the registry and the broadcaster.
pub struct WebSocketService {
    registry: ConnectionRegistry,
    broadcaster: Broadcaster,
    config: WsConfig,
    started_at: Timestamp,
}

/// The mathematical value of a service.
pub struct ServiceModel {
    /// The registry: the record of each live connection, under its
    /// identifier.
    pub registry: Map<ConnectionId, ConnectionRecord>,
    /// The configuration that the service was made with.
    pub config: WsConfig,
    /// When the service was started.
    pub started_at: Timestamp,
    /// The capacity that the broadcaster was made with.
    pub capacity: usize,
    /// What was handed to the broadcaster so far: each message with the
    /// topic it was published on, in the order of the calls.
    pub published: Seq<(Topic, WsMessage)>,
}

impl View for WebSocketService {
    type V = ServiceModel;

    closed spec fn view(&self) -> ServiceModel {
        ServiceModel {
            registry: self.registry@,
            config: self.config,
            started_at: self.started_at,
            capacity: self.broadcaster.capacity(),
            published: self.broadcaster.published(),
        }
    }
}

impl WebSocketService {
    /// The configuration that the service was made with.
    pub open spec fn spec_config(&self) -> WsConfig {
        self@.config
    }

    /// When the service was started.
    pub open spec fn spec_started_at(&self) -> Timestamp {
        self@.started_at
    }

    /// The capacity that the broadcaster of the service was made with.
    pub open spec fn broadcaster_capacity(&self) -> usize {
        self@.capacity
    }

    /// What the service has handed to its broadcaster so far: each message
    /// with the topic it was published on, in the order of the calls.
    pub open spec fn published(&self) -> Seq<(Topic, WsMessage)> {
        self@.published
    }

    /// The invariant of the service: the registry is well formed and holds
    /// no more connections than the hard ceiling and the configured maximum
    /// allow, and the broadcaster was made with the capacity that the
    /// configuration asks for.
    pub open spec fn wf(&self) -> bool {
        &&& records_wf(self@.registry)
        &&& self@.registry.len() <= HARD_CONNECTION_CEILING
        &&& self@.registry.len() <= self.spec_config().max_connections
        &&& self.broadcaster_capacity() == self.spec_config().channel_capacity()
    }

    /// Whether `stats` are the numbers of this service at `now`. Of the
    /// number of subscriber handles nothing is said.
    pub open spec fn stats_are(&self, stats: ServiceStats, now: Timestamp) -> bool {
        &&& stats.total_connections == self@.registry.len()
        &&& topic_counts_of(self@.registry, stats.topic_subscriptions@)
        &&& stats.uptime == uptime_at(self.spec_started_at(), now)
    }

    /// A service without connections that is started now, by the clock,
    /// with the given configuration or the standard one. Every
    /// configuration is taken; a buffer size that cannot be used gives the
    /// broadcaster the default capacity.
    pub fn new(config: Option<WsConfig>) -> (r: Self)
        ensures
            r@.registry == Map::<ConnectionId, ConnectionRecord>::empty(),
            r.spec_config() == match config {
                Some(c) => c,
                None => WsConfig::standard(),
            },
            r.published() == Seq::<(Topic, WsMessage)>::empty(),
            r.wf(),
    {
        let now: Timestamp = clock_millis();
        WebSocketService::started(config, now)
    }

    /// A service without connections that was started at `started_at`,
    /// with the given configuration or the standard one, and with a
    /// broadcaster of the capacity that this configuration comes to.
    /// Nothing was published yet.
    pub fn started(config: Option<WsConfig>, started_at: Timestamp) -> (r: Self)
        ensures
            r@.registry == Map::<ConnectionId, ConnectionRecord>::empty(),
            r.spec_config() == match config {
                Some(c) => c,
                None => WsConfig::standard(),
            },
            r.spec_started_at() == started_at,
            r.published() == Seq::<(Topic, WsMessage)>::empty(),
            r.wf(),
    {
        let config: WsConfig = match config {
            Some(c) => c,
            None => WsConfig::default(),
        };
        let broadcaster: Broadcaster = Broadcaster::new(config.capacity());
        WebSocketService { registry: ConnectionRegistry::new(), broadcaster, config, started_at }
    }

    /// When the service was started.
    #[verifier::when_used_as_spec(spec_started_at)]
    pub fn started_at(&self) -> (r: Timestamp)
        ensures
            r == self.spec_started_at(),
    {
        self.started_at
    }

    /// The configuration that the service was made with.
    #[verifier::when_used_as_spec(spec_config)]
    pub fn config(&self) -> (r: WsConfig)
        ensures
            r == self.spec_config(),
    {
        self.config
    }

    /// Whether a connection with the identifier lives.
    pub fn contains(&self, id: ConnectionId) -> (r: bool)
        ensures
            r == self@.registry.contains_key(id),
    {
        self.registry.contains(id)
    }

    /// The number of live connections.
    pub fn connection_count(&self) -> (n: usize)
        ensures
            n == self@.registry.len(),
    {
        self.registry.len()
    }

    /// A snapshot of the registry.
    pub fn get_connections(&self) -> (copy: HashMap<ConnectionId, ConnectionInfo>)
        ensures
            record_views(copy@) == self@.registry,
    {
        self.registry.snapshot()
    }

    /// A new subscriber handle of the broadcaster, for the session of a
    /// connection.
    pub fn subscribe(&self) -> (handle: Receiver<(SubscriptionTopic, WsMessage)>) {
        self.broadcaster.subscribe()
    }

    /// Whether a connection may be admitted now.
    pub fn check_admission(&self) -> (r: Result<(), ServiceError>)
        ensures
            r == admission(self@.registry.len(), self.spec_config()),
    {
        let count: usize = self.registry.len();
        if count >= HARD_CONNECTION_CEILING {
            Err(ServiceError::TooManyConnections)
        } else if count >= self.config.max_connections {
            Err(ServiceError::MaxConnectionsReached)
        } else {
            Ok(())
        }
    }

    /// Puts the record of a connection that passed admission into the
    /// registry.
    pub(crate) fn insert_record(&mut self, record: ConnectionInfo)
        requires
            old(self).wf(),
            record@.wf(),
            acceptance(old(self)@.registry, old(self).spec_config(), record.id) is Ok,
        ensures
            final(self)@.registry == old(self)@.registry.insert(record.id, record@),
            final(self).spec_config() == old(self).spec_config(),
            final(self).spec_started_at() == old(self).spec_started_at(),
            final(self).published() == old(self).published(),
            final(self).wf(),
    {
        self.registry.insert(record);
    }

    /// Takes a connection out of the registry when its session has ended
    /// or it was found stale, and returns its record. A connection that is
    /// not there is left out: cleaning up twice is safe.
    pub fn cleanup_connection(&mut self, id: ConnectionId) -> (r: Option<ConnectionInfo>)
        requires
            old(self).wf(),
        ensures
            final(self)@.registry == old(self)@.registry.remove(id),
            final(self).spec_config() == old(self).spec_config(),
            final(self).spec_started_at() == old(self).spec_started_at(),
            final(self).published() == old(self).published(),
            final(self).wf(),
            match r {
                Some(record) => old(self)@.registry.contains_key(id) && record@ == old(self)@.registry[id],
                None => !old(self)@.registry.contains_key(id),
            },
    {
        self.registry.remove(id)
    }

    /// Takes a connection out of the registry on request and says whether
    /// it was there.
    pub fn force_cleanup_connection(&mut self, id: ConnectionId) -> (existed: bool)
        requires
            old(self).wf(),
        ensures
            existed == old(self)@.registry.contains_key(id),
            final(self)@.registry == old(self)@.registry.remove(id),
            final(self).spec_config() == old(self).spec_config(),
            final(self).spec_started_at() == old(self).spec_started_at(),
            final(self).published() == old(self).published(),
            final(self).wf(),
    {
        if self.registry.contains(id) {
            self.cleanup_connection(id);
            true
        } else {
            assert(self@.registry =~= self@.registry.remove(id));
            false
        }
    }

    /// Serves a request of the connection `id` to subscribe to topic
    /// strings: each one that is not yet among its subscriptions is added.
    pub fn handle_subscription(&mut self, id: ConnectionId, topics: Vec<String>) -> (r: Result<
        (),
        ServiceError,
    >)
        requires
            old(self).wf(),
        ensures
            r == direct_outcome(old(self)@.registry, id),
            final(self)@.registry == updated(
                old(self)@.registry,
                id,
                |record: ConnectionRecord| record.subscribed(texts(topics@)),
            ),
            final(self).spec_config() == old(self).spec_config(),
            final(self).spec_started_at() == old(self).spec_started_at(),
            final(self).published() == old(self).published(),
            final(self).wf(),
    {
        if self.registry.subscribe(id, &topics) {
            Ok(())
        } else {
            Err(ServiceError::ConnectionNotFound)
        }
    }

    /// Serves a request of the connection `id` to unsubscribe from topic
    /// strings: each one that is among its subscriptions is taken out.
    pub fn handle_unsubscription(&mut self, id: ConnectionId, topics: Vec<String>) -> (r: Result<
        (),
        ServiceError,
    >)
        requires
            old(self).wf(),
        ensures
            r == direct_outcome(old(self)@.registry, id),
            final(self)@.registry == updated(
                old(self)@.registry,
                id,
                |record: ConnectionRecord| record.unsubscribed(texts(topics@)),
            ),
            final(self).spec_config() == old(self).spec_config(),
            final(self).spec_started_at() == old(self).spec_started_at(),
            final(self).published() == old(self).published(),
            final(self).wf(),
    {
        if self.registry.unsubscribe(id, &topics) {
            Ok(())
        } else {
            Err(ServiceError::ConnectionNotFound)
        }
    }

    /// Notes that a ping or a pong of the transport was seen from `id` at
    /// `now`, and says whether there is such a connection.
    pub fn update_last_ping(&mut self, id: ConnectionId, now: Timestamp) -> (found: bool)
        requires
            old(self).wf(),
        ensures
            found == old(self)@.registry.contains_key(id),
            final(self)@.registry == updated(old(self)@.registry, id, |record: ConnectionRecord| record.pinged(now)),
            final(self).spec_config() == old(self).spec_config(),
            final(self).spec_started_at() == old(self).spec_started_at(),
            final(self).published() == old(self).published(),
            final(self).wf(),
    {
        self.registry.record_ping(id, now)
    }

    /// Sends a message to one connection: it is published on the direct
    /// topic of `id`, which reaches that connection and no other. Fails
    /// where there is no such connection, and only then; nothing is
    /// published then.
    pub fn send_to_connection(&mut self, id: ConnectionId, message: WsMessage) -> (r: Result<
        (),
        ServiceError,
    >)
        ensures
            r == direct_outcome(old(self)@.registry, id),
            final(self).published() == published_after_direct(
                old(self).published(),
                old(self)@.registry,
                id,
                message,
            ),
            final(self)@.registry == old(self)@.registry,
            final(self).spec_config() == old(self).spec_config(),
            final(self).spec_started_at() == old(self).spec_started_at(),
            old(self).wf() ==> final(self).wf(),
    {
        if !self.registry.contains(id) {
            return Err(ServiceError::ConnectionNotFound);
        }
        self.broadcaster.publish(SubscriptionTopic::Direct(id), message);
        Ok(())
    }

    /// Publishes a message on a topic: both are handed to the broadcaster
    /// as they came. Returns the number of subscriber handles of the
    /// broadcaster at that moment; the number is only informative, and
    /// zero is no failure.
    pub fn broadcast_to_topic(&mut self, topic: SubscriptionTopic, message: WsMessage) -> (n:
        usize)
        ensures
            final(self).published() == old(self).published().push((topic@, message)),
            final(self)@.registry == old(self)@.registry,
            final(self).spec_config() == old(self).spec_config(),
            final(self).spec_started_at() == old(self).spec_started_at(),
            old(self).wf() ==> final(self).wf(),
    {
        self.broadcaster.publish(topic, message)
    }

    /// Publishes a message on the catch-all topic.
    pub fn broadcast_to_all(&mut self, message: WsMessage) -> (n: usize)
        ensures
            final(self).published() == old(self).published().push((Topic::All, message)),
            final(self)@.registry == old(self)@.registry,
            final(self).spec_config() == old(self).spec_config(),
            final(self).spec_started_at() == old(self).spec_started_at(),
            old(self).wf() ==> final(self).wf(),
    {
        self.broadcast_to_topic(SubscriptionTopic::All, message)
    }

    /// The number of connections to which a message published on `topic`
    /// is delivered as the registry stands.
    pub fn eligible_connections(&self, topic: &SubscriptionTopic) -> (n: usize)
        requires
            self.wf(),
        ensures
            n == recipients(self@.registry, topic@).len(),
            n <= self@.registry.len(),
    {
        self.registry.count_recipients(topic)
    }

    /// Whether a message published on `topic` is delivered to `id`. This
    /// is decided anew for each delivery, from the subscriptions of the
    /// moment; a connection that is not in the registry receives nothing.
    pub fn should_send_to_connection(&self, topic: &SubscriptionTopic, id: ConnectionId) -> (r:
        bool)
        requires
            self.wf(),
        ensures
            r == (self@.registry.contains_key(id) && topic@.reaches(id, self@.registry[id].subscriptions)),
    {
        self.registry.delivers(topic, id)
    }

    /// Serves a message that a client sent. A `Ping` is answered with a
    /// `Pong` to the same connection; a request to subscribe or to
    /// unsubscribe changes the subscriptions of the connection; a custom
    /// event is handed back for the application and changes nothing here;
    /// every other kind is only sent to clients and is ignored when it
    /// comes from one.
    pub fn handle_incoming_message(&mut self, message: WsMessage, id: ConnectionId) -> (r: Result<
        Handled,
        ServiceError,
    >)
        requires
            old(self).wf(),
        ensures
            r == message_outcome(old(self)@.registry, id, message),
            final(self)@.registry == after_message(old(self)@.registry, id, message),
            final(self).published() == published_after_message(
                old(self).published(),
                old(self)@.registry,
                id,
                message,
            ),
            final(self).spec_config() == old(self).spec_config(),
            final(self).spec_started_at() == old(self).spec_started_at(),
            final(self).wf(),
    {
        match message {
            WsMessage::Ping => match self.send_to_connection(id, WsMessage::Pong) {
                Ok(()) => Ok(Handled::Answered),
                Err(e) => Err(e),
            },
            WsMessage::Subscribe { topics } => match self.handle_subscription(id, topics) {
                Ok(()) => Ok(Handled::Subscribed),
                Err(e) => Err(e),
            },
            WsMessage::Unsubscribe { topics } => match self.handle_unsubscription(id, topics) {
                Ok(()) => Ok(Handled::Unsubscribed),
                Err(e) => Err(e),
            },
            WsMessage::Custom { event, data } => Ok(Handled::Custom { event, data }),
            _ => Ok(Handled::Ignored),
        }
    }

    /// The health of one connection at `now`, if it is in the registry.
    pub fn get_connection_health(&self, id: ConnectionId, now: Timestamp) -> (r: Option<
        ConnectionHealth,
    >)
        ensures
            match r {
                Some(health) => self@.registry.contains_key(id) && self@.registry[id].health_is(
                    health,
                    now,
                    self.spec_config().connection_timeout,
                ),
                None => !self@.registry.contains_key(id),
            },
    {
        match self.registry.record(id) {
            Some(record) => Some(record.health(now, self.config.connection_timeout)),
            None => None,
        }
    }

    /// The health of every connection at `now`.
    pub fn get_all_connection_health(&self, now: Timestamp) -> (reports: Vec<ConnectionHealth>)
        requires
            self.wf(),
        ensures
            health_reports_of(self@.registry, reports@, now, self.spec_config().connection_timeout),
            reports@.len() == self@.registry.len(),
    {
        self.registry.health_reports(now, self.config.connection_timeout)
    }

    /// The numbers of the service at `now`.
    pub fn get_service_stats(&self, now: Timestamp) -> (stats: ServiceStats)
        requires
            self.wf(),
        ensures
            self.stats_are(stats, now),
    {
        let uptime: Millis = if now >= self.started_at {
            (now as i128 - self.started_at as i128) as u64
        } else {
            0
        };
        ServiceStats {
            total_connections: self.registry.len(),
            subscriber_count: self.broadcaster.subscriber_count(),
            topic_subscriptions: self.registry.topic_counts(),
            uptime,
        }
    }

    /// What is wrong with the configuration, one text for each finding.
    /// The service runs with a configuration that has findings.
    pub fn validate_config(&self) -> (issues: Vec<String>)
        ensures
            texts(issues@) == self.spec_config().issue_texts(),
    {
        self.config.validate()
    }

    /// Everything the service can report at `now`.
    pub fn get_diagnostics(&self, now: Timestamp) -> (d: ServiceDiagnostics)
        requires
            self.wf(),
        ensures
            self.stats_are(d.service_stats, now),
            health_reports_of(
                self@.registry,
                d.connection_health@,
                now,
                self.spec_config().connection_timeout,
            ),
            texts(d.config_issues@) == self.spec_config().issue_texts(),
            d.broadcaster_stats.is_closed == (d.broadcaster_stats.receiver_count == 0),
            d.memory_usage.connection_registry_size == self@.registry.len(),
            d.memory_usage.estimated_memory_kb == 8 * self@.registry.len(),
    {
        let service_stats: ServiceStats = self.get_service_stats(now);
        let connection_health: Vec<ConnectionHealth> = self.get_all_connection_health(now);
        let config_issues: Vec<String> = self.validate_config();
        let receiver_count: usize = self.broadcaster.subscriber_count();
        let size: usize = self.registry.len();
        ServiceDiagnostics {
            service_stats,
            connection_health,
            config_issues,
            broadcaster_stats: BroadcasterStats { receiver_count, is_closed: receiver_count == 0 },
            memory_usage: MemoryUsage {
                connection_registry_size: size,
                estimated_memory_kb: size * 8,
            },
        }
    }

    /// One round of the reaper: every connection whose latest activity is
    /// at `now` more than the configured timeout ago is taken out of the
    /// registry. Returns the identifiers that were removed, each once.
    pub fn connection_cleanup_cycle(&mut self, now: Timestamp) -> (removed: Vec<ConnectionId>)
        requires
            old(self).wf(),
        ensures
            final(self)@.registry == reaped(old(self)@.registry, now, old(self).spec_config().connection_timeout),
            final(self).spec_config() == old(self).spec_config(),
            final(self).spec_started_at() == old(self).spec_started_at(),
            final(self).published() == old(self).published(),
            final(self).wf(),
            removed@.no_duplicates(),
            removed@.to_set() == stale_ids(
                old(self)@.registry,
                now,
                old(self).spec_config().connection_timeout,
            ),
    {
        let removed: Vec<ConnectionId> = self.registry.remove_stale(
            now,
            self.config.connection_timeout,
        );
        proof {
            let gone = stale_ids(old(self)@.registry, now, self.config.connection_timeout);
            vstd::set_lib::lemma_len_subset(gone, old(self)@.registry.dom());
            old(self)@.registry.lemma_remove_keys_len(gone);
        }
        removed
    }

    /// One round of the pinger: where no connection lives the round is
    /// skipped and nothing is published, else one `Ping` is published on
    /// the catch-all topic. Returns the number of subscriber handles that
    /// the broadcaster reported, and nothing where the round was skipped.
    pub fn ping_cycle(&mut self) -> (r: Option<usize>)
        ensures
            r is None <==> old(self)@.registry.len() == 0,
            final(self).published() == published_after_ping_round(
                old(self).published(),
                old(self)@.registry,
            ),
            final(self)@.registry == old(self)@.registry,
            final(self).spec_config() == old(self).spec_config(),
            final(self).spec_started_at() == old(self).spec_started_at(),
            old(self).wf() ==> final(self).wf(),
    {
        if self.connection_count() == 0 {
            None
        } else {
            Some(self.broadcast_to_all(WsMessage::Ping))
        }
    }

    /// One round of health monitoring at `now`. Changes nothing.
    pub fn health_monitoring_cycle(&self, now: Timestamp) -> (summary: HealthSummary)
        requires
            self.wf(),
        ensures
            summary.total_connections == self@.registry.len(),
            summary.healthy_connections == healthy_ids(
                self@.registry,
                now,
                self.spec_config().connection_timeout,
            ).len(),
            summary.unhealthy_connections == self@.registry.len() - summary.healthy_connections,
            summary.topic_count == subscribed_topics(self@.registry).len(),
    {
        let total: usize = self.registry.len();
        let healthy: usize = self.registry.count_healthy(now, self.config.connection_timeout);
        let counts: Vec<(String, usize)> = self.registry.topic_counts();
        proof {
            let topics = counted_topics(counts@);
            assert forall|t: Seq<char>|
                topics.to_set().contains(t) <==> subscribed_topics(self@.registry).contains(t) by {
                if topics.contains(t) {
                    let at = choose|at: int| 0 <= at < topics.len() && topics[at] == t;
                    assert(counts@[at].1 >= 1);
                }
            }
            assert(topics.to_set() =~= subscribed_topics(self@.registry));
            topics.unique_seq_to_set();
        }
        HealthSummary {
            total_connections: total,
            healthy_connections: healthy,
            unhealthy_connections: total - healthy,
            subscriber_count: self.broadcaster.subscriber_count(),
            topic_count: counts.len(),
        }
    }
}

} // verus!
