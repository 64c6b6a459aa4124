//! What holds of the service as a whole, stated over the models that the
//! contracts of its functions speak of.

use vstd::prelude::*;
use crate::config::{WsConfig, HARD_CONNECTION_CEILING};
use crate::error::ServiceError;
use crate::identity::{ConnectionId, Millis, Timestamp};
use crate::message::WsMessage;
use crate::record::{with_topic, with_topics, without_topic, without_topics, ConnectionRecord};
use crate::registry::{reaped, records_wf, updated};
use crate::service::{
    acceptance, accepted, admission, direct_outcome, published_after_direct,
    published_after_message, published_after_ping_round,
};
use crate::session::{
    ends_session, next_action, next_registry, next_state, SessionAction, SessionEvent,
    SessionState,
};
use crate::topic::{SubscriptionTopic, Topic};

verus! {

/// The registry after a sequence of connections asked for admission, one
/// after the other.
pub open spec fn accepted_each(
    records: Map<ConnectionId, ConnectionRecord>,
    config: WsConfig,
    arrivals: Seq<(ConnectionId, Timestamp)>,
) -> Map<ConnectionId, ConnectionRecord>
    decreases arrivals.len(),
{
    if arrivals.len() == 0 {
        records
    } else {
        accepted(
            accepted_each(records, config, arrivals.drop_last()),
            config,
            arrivals.last().0,
            arrivals.last().1,
        )
    }
}

/// Admission keeps the registry within its capacity: after any sequence of
/// requests for admission it holds no more connections than the configured
/// maximum and the hard ceiling allow.
pub proof fn law_admission_keeps_capacity(
    records: Map<ConnectionId, ConnectionRecord>,
    config: WsConfig,
    arrivals: Seq<(ConnectionId, Timestamp)>,
)
    requires
        records_wf(records),
        records.len() <= config.max_connections,
        records.len() <= HARD_CONNECTION_CEILING,
    ensures
        records_wf(accepted_each(records, config, arrivals)),
        accepted_each(records, config, arrivals).len() <= config.max_connections,
        accepted_each(records, config, arrivals).len() <= HARD_CONNECTION_CEILING,
    decreases arrivals.len(),
{
    if arrivals.len() > 0 {
        law_admission_keeps_capacity(records, config, arrivals.drop_last());
    }
}

/// A request for admission that finds the registry at the configured
/// maximum is refused for want of capacity, and the registry stays as it
/// is.
pub proof fn law_full_registry_refuses(
    records: Map<ConnectionId, ConnectionRecord>,
    config: WsConfig,
    id: ConnectionId,
    now: Timestamp,
)
    requires
        records.len() >= config.max_connections || records.len() >= HARD_CONNECTION_CEILING,
    ensures
        admission(records.len(), config) matches Err(e) && e.is_capacity(),
        accepted(records, config, id, now) == records,
{
}

/// A connection that asks for admission under the identifier of a live
/// connection is refused, and the registry stays as it is; one that is
/// admitted makes the registry larger by one.
pub proof fn law_identifiers_are_not_used_twice(
    records: Map<ConnectionId, ConnectionRecord>,
    config: WsConfig,
    id: ConnectionId,
    now: Timestamp,
)
    requires
        records_wf(records),
    ensures
        records.contains_key(id) ==> acceptance(records, config, id) is Err && accepted(
            records,
            config,
            id,
            now,
        ) == records,
        acceptance(records, config, id) is Ok ==> accepted(records, config, id, now).len()
            == records.len() + 1,
{
}

/// Only two things are ever published without being asked for: the `Pong`
/// that answers the `Ping` of a connection that is there, on the direct
/// topic of that connection, and the `Ping` of a round of the pinger, on
/// the catch-all topic, where a connection lives. A message sent to a
/// connection that is not there publishes nothing.
pub proof fn law_what_is_published(
    log: Seq<(Topic, WsMessage)>,
    records: Map<ConnectionId, ConnectionRecord>,
    id: ConnectionId,
    message: WsMessage,
)
    ensures
        !records.contains_key(id) ==> published_after_direct(log, records, id, message) == log,
        records.contains_key(id) ==> published_after_direct(log, records, id, message)
            == log.push((Topic::Direct(id), message)),
        !(message is Ping) || !records.contains_key(id) ==> published_after_message(
            log,
            records,
            id,
            message,
        ) == log,
        message is Ping && records.contains_key(id) ==> published_after_message(
            log,
            records,
            id,
            message,
        ) == log.push((Topic::Direct(id), WsMessage::Pong)),
        records.len() == 0 ==> published_after_ping_round(log, records) == log,
        records.len() > 0 ==> published_after_ping_round(log, records) == log.push(
            (Topic::All, WsMessage::Ping),
        ),
{
}

/// A message on the direct topic of a connection reaches that connection
/// and no other, whatever either is subscribed to.
pub proof fn law_direct_reaches_its_target_only(
    target: ConnectionId,
    other: ConnectionId,
    target_subscriptions: Seq<Seq<char>>,
    other_subscriptions: Seq<Seq<char>>,
)
    requires
        target != other,
    ensures
        Topic::Direct(target).reaches(target, target_subscriptions),
        !Topic::Direct(target).reaches(other, other_subscriptions),
{
}

/// A connection that is subscribed to `"all"` receives what is published
/// on any topic but the direct topic of another connection.
pub proof fn law_all_receives_every_topic(
    topic: Topic,
    id: ConnectionId,
    subscriptions: Seq<Seq<char>>,
)
    requires
        subscriptions.contains("all"@),
        topic matches Topic::Direct(target) ==> target == id,
    ensures
        topic.reaches(id, subscriptions),
{
}

/// To subscribe to a topic string and then to unsubscribe from it leaves
/// the subscriptions as they were, where the string was not among them
/// before; where it was, it is gone afterwards.
pub proof fn law_subscribe_then_unsubscribe(subscriptions: Seq<Seq<char>>, topic: Seq<char>)
    requires
        subscriptions.no_duplicates(),
    ensures
        !subscriptions.contains(topic) ==> without_topic(with_topic(subscriptions, topic), topic)
            == subscriptions,
        !without_topic(with_topic(subscriptions, topic), topic).contains(topic),
{
    let added = with_topic(subscriptions, topic);
    crate::record::lemma_with_topic_no_duplicates(subscriptions, topic);
    crate::record::lemma_without_topic_no_duplicates(added, topic);
    if !subscriptions.contains(topic) {
        added.index_of_first_ensures(topic);
        let at = added.index_of_first(topic).unwrap();
        assert(added[subscriptions.len() as int] == topic);
        assert(at == subscriptions.len());
        assert(added.remove(at) =~= subscriptions);
    }
}

/// Every topic string that was there or was asked for is among the
/// subscriptions after a request to subscribe, and nothing else is.
pub proof fn lemma_with_topics_members(subscriptions: Seq<Seq<char>>, topics: Seq<Seq<char>>)
    ensures
        forall|t: Seq<char>|
            with_topics(subscriptions, topics).contains(t) <==> (subscriptions.contains(t)
                || topics.contains(t)),
    decreases topics.len(),
{
    if topics.len() > 0 {
        let front = topics.drop_last();
        let last = topics.last();
        lemma_with_topics_members(subscriptions, front);
        let before = with_topics(subscriptions, front);
        let after = with_topic(before, last);
        assert(topics =~= front.push(last));
        assert forall|t: Seq<char>| after.contains(t) <==> (subscriptions.contains(t)
            || topics.contains(t)) by {
            if after.contains(t) {
                let at = choose|at: int| 0 <= at < after.len() && after[at] == t;
                if at < before.len() {
                    assert(before[at] == t);
                } else {
                    assert(topics[topics.len() - 1] == t);
                }
            }
            if before.contains(t) {
                let at = choose|at: int| 0 <= at < before.len() && before[at] == t;
                assert(after[at] == t);
            }
            if topics.contains(t) {
                let at = choose|at: int| 0 <= at < topics.len() && topics[at] == t;
                if at < front.len() {
                    assert(front[at] == t);
                } else if !before.contains(t) {
                    assert(after[before.len() as int] == t);
                }
            }
            if front.contains(t) {
                let at = choose|at: int| 0 <= at < front.len() && front[at] == t;
                assert(topics[at] == t);
            }
        }
    }
}

/// Dropping one topic string leaves another one that stands at the end
/// where it is.
pub proof fn lemma_without_topic_keeps_last(
    subscriptions: Seq<Seq<char>>,
    last: Seq<char>,
    topic: Seq<char>,
)
    requires
        last != topic,
    ensures
        without_topic(subscriptions.push(last), topic) == without_topic(subscriptions, topic).push(
            last,
        ),
{
    let longer = subscriptions.push(last);
    subscriptions.index_of_first_ensures(topic);
    longer.index_of_first_ensures(topic);
    match subscriptions.index_of_first(topic) {
        Some(at) => {
            assert(longer[at] == topic);
            let other = longer.index_of_first(topic).unwrap();
            if other < at {
                assert(subscriptions[other] == topic);
            }
            assert(other == at);
            assert(longer.remove(at) =~= subscriptions.remove(at).push(last));
        },
        None => {
            if longer.contains(topic) {
                let at = choose|at: int| 0 <= at < longer.len() && longer[at] == topic;
                if at < subscriptions.len() {
                    assert(subscriptions[at] == topic);
                }
            }
        },
    }
}

/// Dropping topic strings leaves another one that stands at the end where
/// it is.
pub proof fn lemma_without_topics_keeps_last(
    subscriptions: Seq<Seq<char>>,
    last: Seq<char>,
    topics: Seq<Seq<char>>,
)
    requires
        !topics.contains(last),
    ensures
        without_topics(subscriptions.push(last), topics) == without_topics(
            subscriptions,
            topics,
        ).push(last),
    decreases topics.len(),
{
    if topics.len() > 0 {
        let front = topics.drop_last();
        assert(topics[topics.len() - 1] == topics.last());
        if front.contains(last) {
            let at = choose|at: int| 0 <= at < front.len() && front[at] == last;
            assert(topics[at] == last);
        }
        lemma_without_topics_keeps_last(subscriptions, last, front);
        lemma_without_topic_keeps_last(without_topics(subscriptions, front), last, topics.last());
    }
}

/// To subscribe to a list of topic strings and then to unsubscribe from
/// the same list leaves the subscriptions as they were, where none of the
/// strings was among them before.
pub proof fn law_subscribe_then_unsubscribe_all(
    subscriptions: Seq<Seq<char>>,
    topics: Seq<Seq<char>>,
)
    requires
        subscriptions.no_duplicates(),
        forall|i: int| 0 <= i < topics.len() ==> !subscriptions.contains(#[trigger] topics[i]),
    ensures
        without_topics(with_topics(subscriptions, topics), topics) == subscriptions,
    decreases topics.len(),
{
    if topics.len() > 0 {
        let front = topics.drop_last();
        let last = topics.last();
        assert forall|i: int| 0 <= i < front.len() implies !subscriptions.contains(
            #[trigger] front[i],
        ) by {
            assert(front[i] == topics[i]);
        }
        law_subscribe_then_unsubscribe_all(subscriptions, front);
        let added_front = with_topics(subscriptions, front);
        assert(!subscriptions.contains(topics[topics.len() - 1]));
        subscriptions.index_of_first_ensures(last);
        if added_front.contains(last) {
            assert(without_topic(subscriptions, last) == subscriptions);
        } else {
            lemma_with_topics_members(subscriptions, front);
            lemma_without_topics_keeps_last(added_front, last, front);
            law_subscribe_then_unsubscribe(subscriptions, last);
        }
    }
}

/// The same of a connection in the registry: a request to subscribe to one
/// topic string followed by a request to unsubscribe from it leaves the
/// registry as it was, where the connection was not subscribed to the
/// string before.
pub proof fn law_subscribe_then_unsubscribe_in_registry(
    records: Map<ConnectionId, ConnectionRecord>,
    id: ConnectionId,
    topic: Seq<char>,
)
    requires
        records_wf(records),
        records.contains_key(id) ==> !records[id].subscriptions.contains(topic),
    ensures
        updated(
            updated(records, id, |record: ConnectionRecord| record.subscribed(seq![topic])),
            id,
            |record: ConnectionRecord| record.unsubscribed(seq![topic]),
        ) == records,
{
    if records.contains_key(id) {
        let before = records[id];
        let one = seq![topic];
        assert(one.drop_last() =~= Seq::<Seq<char>>::empty());
        assert(one.last() == topic);
        reveal_with_fuel(Seq::fold_left, 2);
        assert(before.subscribed(one).subscriptions == with_topic(before.subscriptions, topic));
        assert(before.subscribed(one).unsubscribed(one).subscriptions == without_topic(
            with_topic(before.subscriptions, topic),
            topic,
        ));
        law_subscribe_then_unsubscribe(before.subscriptions, topic);
        assert(before.subscribed(one).unsubscribed(one) == before);
        let middle = updated(records, id, |record: ConnectionRecord| record.subscribed(one));
        assert(updated(middle, id, |record: ConnectionRecord| record.unsubscribed(one))
            =~= records);
    }
}

/// A connection whose latest activity is more than the timeout ago is
/// gone after a round of the reaper, and a message sent to it afterwards
/// is refused because the connection is not found; the connections that
/// are not stale stay as they are.
pub proof fn law_stale_connection_is_reaped(
    records: Map<ConnectionId, ConnectionRecord>,
    id: ConnectionId,
    now: Timestamp,
    timeout: Millis,
)
    requires
        records.contains_key(id),
    ensures
        records[id].is_stale(now, timeout) ==> !reaped(records, now, timeout).contains_key(id)
            && direct_outcome(reaped(records, now, timeout), id) == Err::<(), ServiceError>(
            ServiceError::ConnectionNotFound,
        ),
        !records[id].is_stale(now, timeout) ==> reaped(records, now, timeout).contains_key(id)
            && reaped(records, now, timeout)[id] == records[id],
{
}

/// A connection that is not in the registry is forwarded nothing, on
/// whatever topic a message was published and in whatever state its
/// session is.
pub proof fn law_removed_connection_receives_nothing(
    records: Map<ConnectionId, ConnectionRecord>,
    id: ConnectionId,
    state: SessionState,
    topic: SubscriptionTopic,
    message: WsMessage,
)
    requires
        !records.contains_key(id),
    ensures
        next_action(state, SessionEvent::Delivery(topic, message), id, records)
            == SessionAction::Continue,
{
}

/// A session that is closed stays closed, asks for nothing and leaves the
/// registry alone, whatever happens.
pub proof fn law_closed_is_final(
    records: Map<ConnectionId, ConnectionRecord>,
    id: ConnectionId,
    event: SessionEvent,
    now: Timestamp,
)
    ensures
        next_state(SessionState::Closed, event) == SessionState::Closed,
        next_action(SessionState::Closed, event, id, records) == SessionAction::Continue,
        next_registry(SessionState::Closed, event, id, records, now) == records,
{
}

/// Every session can be closed: once its stream and its subscriber handle
/// are let go it is closed, and if it had been registered its record is
/// out of the registry.
pub proof fn law_release_closes(
    records: Map<ConnectionId, ConnectionRecord>,
    id: ConnectionId,
    state: SessionState,
    now: Timestamp,
)
    ensures
        next_state(state, SessionEvent::Released) == SessionState::Closed,
        state == SessionState::Registered || state == SessionState::Active || state
            == SessionState::Draining ==> !next_registry(
            state,
            SessionEvent::Released,
            id,
            records,
            now,
        ).contains_key(id),
{
}

/// An active session that sees its client close, its stream fail or end,
/// or the broadcaster close, is draining afterwards, and a draining
/// session neither writes nor changes the registry until it is let go.
pub proof fn law_draining_attempts_nothing(
    records: Map<ConnectionId, ConnectionRecord>,
    id: ConnectionId,
    event: SessionEvent,
    now: Timestamp,
)
    ensures
        ends_session(event) ==> next_state(SessionState::Active, event) == SessionState::Draining,
        !(event is Released) ==> next_state(SessionState::Draining, event)
            == SessionState::Draining && next_registry(
            SessionState::Draining,
            event,
            id,
            records,
            now,
        ) == records,
        next_action(SessionState::Draining, event, id, records) == SessionAction::Continue,
{
}

} // verus!
