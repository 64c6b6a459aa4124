//! The state that the service keeps of one connection.

use vstd::prelude::*;
use crate::identity::{clock_millis, random_uuid, ConnectionId, Millis, Timestamp};
use crate::stats::ConnectionHealth;
use crate::text::{text_eq, texts};
use crate::topic::{SubscriptionTopic, Topic};

verus! {

/// The state of one connection.
#[derive(Debug, Clone)]
pub struct ConnectionInfo {
    /// The connection's identifier.
    pub id: ConnectionId,
    /// When the connection was admitted.
    pub connected_at: Timestamp,
    /// When a ping or a pong of the transport was last seen, if ever.
    pub last_ping: Option<Timestamp>,
    /// The topic strings that the connection is subscribed to, in the order
    /// in which they were added. No string occurs twice.
    pub subscriptions: Vec<String>,
    /// What else is known of the client, as pairs of a key and a value. No
    /// key occurs twice.
    pub metadata: Vec<(String, String)>,
}

/// The mathematical value of a [`ConnectionInfo`].
pub struct ConnectionRecord {
    pub id: ConnectionId,
    pub connected_at: Timestamp,
    pub last_ping: Option<Timestamp>,
    pub subscriptions: Seq<Seq<char>>,
    pub metadata: Seq<(Seq<char>, Seq<char>)>,
}

/// The views of a sequence of pairs of strings.
pub open spec fn pair_texts(v: Seq<(String, String)>) -> Seq<(Seq<char>, Seq<char>)> {
    v.map_values(|p: (String, String)| (p.0@, p.1@))
}

impl View for ConnectionInfo {
    type V = ConnectionRecord;

    open spec fn view(&self) -> ConnectionRecord {
        ConnectionRecord {
            id: self.id,
            connected_at: self.connected_at,
            last_ping: self.last_ping,
            subscriptions: texts(self.subscriptions@),
            metadata: pair_texts(self.metadata@),
        }
    }
}

/// The subscriptions after a request to subscribe to one topic string: the
/// string is added at the end unless it is there already.
pub open spec fn with_topic(subscriptions: Seq<Seq<char>>, topic: Seq<char>) -> Seq<Seq<char>> {
    if subscriptions.contains(topic) {
        subscriptions
    } else {
        subscriptions.push(topic)
    }
}

/// The subscriptions after a request to subscribe to each of `topics`, in
/// their order.
pub open spec fn with_topics(subscriptions: Seq<Seq<char>>, topics: Seq<Seq<char>>) -> Seq<
    Seq<char>,
> {
    topics.fold_left(subscriptions, |acc: Seq<Seq<char>>, t: Seq<char>| with_topic(acc, t))
}

/// The subscriptions after a request to drop one topic string: its first
/// occurrence is taken out, and nothing changes where there is none.
pub open spec fn without_topic(subscriptions: Seq<Seq<char>>, topic: Seq<char>) -> Seq<Seq<char>> {
    subscriptions.remove_value(topic)
}

/// The subscriptions after a request to drop each of `topics`, in their
/// order.
pub open spec fn without_topics(subscriptions: Seq<Seq<char>>, topics: Seq<Seq<char>>) -> Seq<
    Seq<char>,
> {
    topics.fold_left(subscriptions, |acc: Seq<Seq<char>>, t: Seq<char>| without_topic(acc, t))
}

impl Topic {
    /// Whether a message published on this topic is delivered to the
    /// connection `id` with the given subscriptions. A direct topic reaches
    /// the connection it names and no other, whatever the subscriptions;
    /// any other topic reaches the connections subscribed to `"all"` or to
    /// the topic's canonical string.
    pub open spec fn reaches(self, id: ConnectionId, subscriptions: Seq<Seq<char>>) -> bool {
        match self {
            Topic::Direct(target) => target == id,
            _ => subscriptions.contains("all"@) || subscriptions.contains(self.text()),
        }
    }
}

impl ConnectionRecord {
    /// The record of a connection that was just admitted.
    pub open spec fn fresh(id: ConnectionId, connected_at: Timestamp) -> ConnectionRecord {
        ConnectionRecord {
            id,
            connected_at,
            last_ping: None,
            subscriptions: Seq::empty(),
            metadata: Seq::empty(),
        }
    }

    /// No topic string and no metadata key occurs twice.
    pub open spec fn wf(self) -> bool {
        &&& self.subscriptions.no_duplicates()
        &&& self.metadata.map_values(|p: (Seq<char>, Seq<char>)| p.0).no_duplicates()
    }

    /// The moment of the latest activity: the last ping or pong, or the
    /// admission where there was none.
    pub open spec fn last_activity(self) -> Timestamp {
        match self.last_ping {
            Some(at) => at,
            None => self.connected_at,
        }
    }

    /// Whether at `now` the latest activity is more than `timeout` ago.
    pub open spec fn is_stale(self, now: Timestamp, timeout: Millis) -> bool {
        self.last_activity() < now - timeout
    }

    /// Whether at `now` the latest activity is less than `timeout` ago.
    pub open spec fn is_healthy(self, now: Timestamp, timeout: Millis) -> bool {
        now - self.last_activity() < timeout
    }

    /// Whether a message published on `topic` is delivered to this
    /// connection.
    pub open spec fn receives(self, topic: Topic) -> bool {
        topic.reaches(self.id, self.subscriptions)
    }

    /// The record after a request to subscribe to `topics`.
    pub open spec fn subscribed(self, topics: Seq<Seq<char>>) -> ConnectionRecord {
        ConnectionRecord { subscriptions: with_topics(self.subscriptions, topics), ..self }
    }

    /// The record after a request to drop `topics`.
    pub open spec fn unsubscribed(self, topics: Seq<Seq<char>>) -> ConnectionRecord {
        ConnectionRecord { subscriptions: without_topics(self.subscriptions, topics), ..self }
    }

    /// The record after a ping or a pong was seen at `now`.
    pub open spec fn pinged(self, now: Timestamp) -> ConnectionRecord {
        ConnectionRecord { last_ping: Some(now), ..self }
    }

    /// Whether `health` is the health of this connection at `now`.
    pub open spec fn health_is(self, health: ConnectionHealth, now: Timestamp, timeout: Millis) -> bool {
        &&& health.connection_id == self.id
        &&& health.is_healthy == self.is_healthy(now, timeout)
        &&& health.connected_duration == now - self.connected_at
        &&& health.last_ping_duration == match self.last_ping {
            Some(at) => Some((now - at) as i128),
            None => None,
        }
        &&& health.subscription_count == self.subscriptions.len()
        &&& texts(health.subscriptions@) == self.subscriptions
    }
}

/// Adding a topic string keeps the subscriptions free of duplicates.
pub proof fn lemma_with_topic_no_duplicates(subscriptions: Seq<Seq<char>>, topic: Seq<char>)
    requires
        subscriptions.no_duplicates(),
    ensures
        with_topic(subscriptions, topic).no_duplicates(),
{
}

/// Dropping a topic string keeps the subscriptions free of duplicates, and
/// the string is then absent.
pub proof fn lemma_without_topic_no_duplicates(subscriptions: Seq<Seq<char>>, topic: Seq<char>)
    requires
        subscriptions.no_duplicates(),
    ensures
        without_topic(subscriptions, topic).no_duplicates(),
        !without_topic(subscriptions, topic).contains(topic),
{
    subscriptions.index_of_first_ensures(topic);
    let after = without_topic(subscriptions, topic);
    match subscriptions.index_of_first(topic) {
        Some(at) => {
            assert forall|i: int| 0 <= i < after.len() implies #[trigger] after[i]
                == subscriptions[if i < at {
                i
            } else {
                i + 1
            }] by {}
            if after.contains(topic) {
                let k = choose|k: int| 0 <= k < after.len() && after[k] == topic;
                assert(subscriptions[if k < at {
                    k
                } else {
                    k + 1
                }] == topic);
            }
        },
        None => {},
    }
}

/// Adding topic strings one after the other keeps the subscriptions free of
/// duplicates.
pub proof fn lemma_with_topics_no_duplicates(subscriptions: Seq<Seq<char>>, topics: Seq<Seq<char>>)
    requires
        subscriptions.no_duplicates(),
    ensures
        with_topics(subscriptions, topics).no_duplicates(),
    decreases topics.len(),
{
    if topics.len() > 0 {
        lemma_with_topics_no_duplicates(subscriptions, topics.drop_last());
        lemma_with_topic_no_duplicates(with_topics(subscriptions, topics.drop_last()), topics.last());
    }
}

/// Dropping topic strings one after the other keeps the subscriptions free
/// of duplicates.
pub proof fn lemma_without_topics_no_duplicates(
    subscriptions: Seq<Seq<char>>,
    topics: Seq<Seq<char>>,
)
    requires
        subscriptions.no_duplicates(),
    ensures
        without_topics(subscriptions, topics).no_duplicates(),
    decreases topics.len(),
{
    if topics.len() > 0 {
        lemma_without_topics_no_duplicates(subscriptions, topics.drop_last());
        lemma_without_topic_no_duplicates(
            without_topics(subscriptions, topics.drop_last()),
            topics.last(),
        );
    }
}

/// Whether no string occurs twice in the list.
pub fn all_distinct(list: &Vec<String>) -> (r: bool)
    ensures
        r == texts(list@).no_duplicates(),
{
    let ghost all = texts(list@);
    let mut i: usize = 0;
    while i < list.len()
        invariant
            i <= list.len(),
            all == texts(list@),
            forall|a: int, b: int| 0 <= a < b < i ==> all[a] != all[b],
        decreases list.len() - i,
    {
        let mut j: usize = 0;
        while j < i
            invariant
                j <= i < list.len(),
                all == texts(list@),
                forall|a: int| 0 <= a < j ==> all[a] != all[i as int],
            decreases i - j,
        {
            if text_eq(list[j].as_str(), list[i].as_str()) {
                assert(all[j as int] == all[i as int]);
                return false;
            }
            j += 1;
        }
        i += 1;
    }
    assert forall|a: int, b: int| 0 <= a < all.len() && 0 <= b < all.len() && a != b implies all[a]
        != all[b] by {
        if a < b {
            assert(all[a] != all[b]);
        } else {
            assert(all[b] != all[a]);
        }
    }
    true
}

/// Where the first occurrence of `needle` stands in `list`, if it occurs.
pub fn position_of(list: &Vec<String>, needle: &str) -> (r: Option<usize>)
    ensures
        match r {
            Some(at) => texts(list@).index_of_first(needle@) == Some(at as int),
            None => !texts(list@).contains(needle@),
        },
{
    let ghost all = texts(list@);
    let mut i: usize = 0;
    while i < list.len()
        invariant
            i <= list.len(),
            all == texts(list@),
            forall|j: int| 0 <= j < i ==> all[j] != needle@,
        decreases list.len() - i,
    {
        if text_eq(list[i].as_str(), needle) {
            proof {
                all.index_of_first_ensures(needle@);
                assert(all[i as int] == needle@);
            }
            return Some(i);
        }
        i += 1;
    }
    None
}

impl ConnectionInfo {
    /// The record of a connection that is admitted now: a random identifier
    /// and the time of the clock, no ping seen, no subscription and no
    /// metadata.
    pub fn new() -> (r: Self)
        ensures
            r@ == ConnectionRecord::fresh(r.id, r.connected_at),
            r@.wf(),
    {
        let id: ConnectionId = random_uuid();
        let now: Timestamp = clock_millis();
        ConnectionInfo::with_identity(id, now)
    }

    /// The record of a connection with the identifier `id` that was
    /// admitted at `connected_at`: no ping seen, no subscription and no
    /// metadata.
    pub fn with_identity(id: ConnectionId, connected_at: Timestamp) -> (r: Self)
        ensures
            r@ == ConnectionRecord::fresh(id, connected_at),
            r@.wf(),
    {
        let r = ConnectionInfo {
            id,
            connected_at,
            last_ping: None,
            subscriptions: Vec::new(),
            metadata: Vec::new(),
        };
        assert(r@.subscriptions =~= Seq::empty());
        assert(r@.metadata =~= Seq::empty());
        r
    }

    /// Whether no topic string and no metadata key occurs twice in the
    /// record.
    pub fn is_well_formed(&self) -> (r: bool)
        ensures
            r == self@.wf(),
    {
        if !all_distinct(&self.subscriptions) {
            return false;
        }
        let mut keys: Vec<String> = Vec::new();
        let ghost wanted = self@.metadata.map_values(|p: (Seq<char>, Seq<char>)| p.0);
        let mut i: usize = 0;
        while i < self.metadata.len()
            invariant
                i <= self.metadata.len(),
                wanted == self@.metadata.map_values(|p: (Seq<char>, Seq<char>)| p.0),
                texts(keys@) == wanted.take(i as int),
            decreases self.metadata.len() - i,
        {
            let ghost before = keys@;
            keys.push(self.metadata[i].0.clone());
            assert(texts(keys@) =~= texts(before).push(self.metadata[i as int].0@));
            assert(texts(keys@) =~= wanted.take(i + 1));
            i += 1;
        }
        assert(wanted.take(self.metadata.len() as int) =~= wanted);
        all_distinct(&keys)
    }

    /// Whether the connection is subscribed to the topic string.
    pub fn is_subscribed(&self, topic: &str) -> (r: bool)
        ensures
            r == self@.subscriptions.contains(topic@),
    {
        proof {
            self@.subscriptions.index_of_first_ensures(topic@);
        }
        position_of(&self.subscriptions, topic).is_some()
    }

    /// Adds each of `topics` that is not yet there to the subscriptions, at
    /// the end and in the order of the request.
    pub fn subscribe(&mut self, topics: &Vec<String>)
        ensures
            final(self)@ == old(self)@.subscribed(texts(topics@)),
            old(self)@.wf() ==> final(self)@.wf(),
    {
        let ghost before = self@;
        let ghost wanted = texts(topics@);
        let mut i: usize = 0;
        while i < topics.len()
            invariant
                i <= topics.len(),
                wanted == texts(topics@),
                self@ == before.subscribed(wanted.take(i as int)),
            decreases topics.len() - i,
        {
            let ghost current = self@.subscriptions;
            proof {
                current.index_of_first_ensures(wanted[i as int]);
                assert(wanted.take(i + 1).drop_last() =~= wanted.take(i as int));
            }
            if position_of(&self.subscriptions, topics[i].as_str()).is_none() {
                self.subscriptions.push(topics[i].clone());
                assert(self@.subscriptions =~= current.push(wanted[i as int]));
            }
            i += 1;
        }
        proof {
            assert(wanted.take(topics.len() as int) =~= wanted);
            if before.wf() {
                lemma_with_topics_no_duplicates(before.subscriptions, wanted);
            }
        }
    }

    /// Takes each of `topics` out of the subscriptions; one that is not
    /// there changes nothing.
    pub fn unsubscribe(&mut self, topics: &Vec<String>)
        ensures
            final(self)@ == old(self)@.unsubscribed(texts(topics@)),
            old(self)@.wf() ==> final(self)@.wf(),
    {
        let ghost before = self@;
        let ghost wanted = texts(topics@);
        let mut i: usize = 0;
        while i < topics.len()
            invariant
                i <= topics.len(),
                wanted == texts(topics@),
                self@ == before.unsubscribed(wanted.take(i as int)),
            decreases topics.len() - i,
        {
            let ghost current = self@.subscriptions;
            proof {
                current.index_of_first_ensures(wanted[i as int]);
                assert(wanted.take(i + 1).drop_last() =~= wanted.take(i as int));
            }
            if let Some(at) = position_of(&self.subscriptions, topics[i].as_str()) {
                self.subscriptions.remove(at);
                assert(self@.subscriptions =~= current.remove(at as int));
            }
            i += 1;
        }
        proof {
            assert(wanted.take(topics.len() as int) =~= wanted);
            if before.wf() {
                lemma_without_topics_no_duplicates(before.subscriptions, wanted);
            }
        }
    }

    /// Whether a message published on `topic` is delivered to this
    /// connection.
    pub fn receives(&self, topic: &SubscriptionTopic) -> (r: bool)
        ensures
            r == self@.receives(topic@),
    {
        match topic {
            SubscriptionTopic::Direct(target) => *target == self.id,
            _ => {
                if self.is_subscribed("all") {
                    true
                } else {
                    let name: String = topic.to_string();
                    self.is_subscribed(name.as_str())
                }
            },
        }
    }

    /// The moment of the latest activity.
    pub fn last_activity(&self) -> (r: Timestamp)
        ensures
            r == self@.last_activity(),
    {
        match self.last_ping {
            Some(at) => at,
            None => self.connected_at,
        }
    }

    /// Notes that a ping or a pong was seen at `now`.
    pub fn record_ping(&mut self, now: Timestamp)
        ensures
            final(self)@ == old(self)@.pinged(now),
    {
        self.last_ping = Some(now);
    }

    /// Whether at `now` the latest activity is more than `timeout` ago.
    pub fn is_stale(&self, now: Timestamp, timeout: Millis) -> (r: bool)
        ensures
            r == self@.is_stale(now, timeout),
    {
        let last: i128 = self.last_activity() as i128;
        let threshold: i128 = now as i128 - timeout as i128;
        last < threshold
    }

    /// The health of the connection at `now`, under the given timeout.
    pub fn health(&self, now: Timestamp, timeout: Millis) -> (r: ConnectionHealth)
        ensures
            self@.health_is(r, now, timeout),
    {
        let connected_duration: i128 = now as i128 - self.connected_at as i128;
        let last_ping_duration: Option<i128> = match self.last_ping {
            Some(at) => Some(now as i128 - at as i128),
            None => None,
        };
        let is_healthy: bool = match last_ping_duration {
            Some(age) => age < timeout as i128,
            None => connected_duration < timeout as i128,
        };
        let subscriptions: Vec<String> = copy_texts(&self.subscriptions);
        ConnectionHealth {
            connection_id: self.id,
            is_healthy,
            connected_duration,
            last_ping_duration,
            subscription_count: self.subscriptions.len(),
            subscriptions,
        }
    }

    /// A copy of the record.
    pub fn snapshot(&self) -> (r: Self)
        ensures
            r@ == self@,
    {
        let mut metadata: Vec<(String, String)> = Vec::new();
        let mut i: usize = 0;
        while i < self.metadata.len()
            invariant
                i <= self.metadata.len(),
                pair_texts(metadata@) == pair_texts(self.metadata@).take(i as int),
            decreases self.metadata.len() - i,
        {
            let key: String = self.metadata[i].0.clone();
            let value: String = self.metadata[i].1.clone();
            let ghost before = metadata@;
            metadata.push((key, value));
            assert(pair_texts(metadata@) =~= pair_texts(before).push(
                (self.metadata[i as int].0@, self.metadata[i as int].1@),
            ));
            assert(pair_texts(metadata@) =~= pair_texts(self.metadata@).take(i + 1));
            i += 1;
        }
        assert(pair_texts(self.metadata@).take(self.metadata.len() as int) =~= pair_texts(
            self.metadata@,
        ));
        ConnectionInfo {
            id: self.id,
            connected_at: self.connected_at,
            last_ping: self.last_ping,
            subscriptions: copy_texts(&self.subscriptions),
            metadata,
        }
    }
}

/// A copy of a list of strings.
pub fn copy_texts(list: &Vec<String>) -> (r: Vec<String>)
    ensures
        texts(r@) == texts(list@),
{
    let mut out: Vec<String> = Vec::new();
    let mut i: usize = 0;
    while i < list.len()
        invariant
            i <= list.len(),
            texts(out@) == texts(list@).take(i as int),
        decreases list.len() - i,
    {
        let ghost before = out@;
        out.push(list[i].clone());
        assert(texts(out@) =~= texts(before).push(list[i as int]@));
        assert(texts(out@) =~= texts(list@).take(i + 1));
        i += 1;
    }
    assert(texts(list@).take(list.len() as int) =~= texts(list@));
    out
}

} // verus!
