//! The registry: who is connected, and what each connection is subscribed to.

use vstd::prelude::*;
use std::collections::HashMap;
use vstd::std_specs::iter::IteratorSpec;
use crate::counting::{
    count_in, lemma_count_in_ends, lemma_count_in_step, lemma_filter_counts_set,
    lemma_take_one_more,
};
use crate::identity::{ConnectionId, Millis, Timestamp};
use crate::record::{ConnectionInfo, ConnectionRecord};
use crate::stats::ConnectionHealth;
use crate::text::{text_eq, texts};
use crate::topic::{SubscriptionTopic, Topic};

verus! {

/// The mathematical value of a map of records.
pub open spec fn record_views(records: Map<ConnectionId, ConnectionInfo>) -> Map<
    ConnectionId,
    ConnectionRecord,
> {
    records.map_values(|record: ConnectionInfo| record@)
}

/// Every record is well formed and is kept under its own identifier, and
/// there are finitely many.
pub open spec fn records_wf(records: Map<ConnectionId, ConnectionRecord>) -> bool {
    &&& records.dom().finite()
    &&& forall|id: ConnectionId| #[trigger]
        records.contains_key(id) ==> records[id].id == id && records[id].wf()
}

/// The registry after `update` was applied to the record of `id`; the same
/// registry where there is no such record.
pub open spec fn updated(
    records: Map<ConnectionId, ConnectionRecord>,
    id: ConnectionId,
    update: spec_fn(ConnectionRecord) -> ConnectionRecord,
) -> Map<ConnectionId, ConnectionRecord> {
    if records.contains_key(id) {
        records.insert(id, update(records[id]))
    } else {
        records
    }
}

/// The connections whose latest activity is at `now` more than `timeout`
/// ago.
pub open spec fn stale_ids(
    records: Map<ConnectionId, ConnectionRecord>,
    now: Timestamp,
    timeout: Millis,
) -> Set<ConnectionId> {
    records.dom().filter(|id: ConnectionId| records[id].is_stale(now, timeout))
}

/// The registry without its stale connections.
pub open spec fn reaped(
    records: Map<ConnectionId, ConnectionRecord>,
    now: Timestamp,
    timeout: Millis,
) -> Map<ConnectionId, ConnectionRecord> {
    records.remove_keys(stale_ids(records, now, timeout))
}

/// The connections whose latest activity is at `now` less than `timeout`
/// ago.
pub open spec fn healthy_ids(
    records: Map<ConnectionId, ConnectionRecord>,
    now: Timestamp,
    timeout: Millis,
) -> Set<ConnectionId> {
    records.dom().filter(|id: ConnectionId| records[id].is_healthy(now, timeout))
}

/// The connections to which a message published on `topic` is delivered.
pub open spec fn recipients(records: Map<ConnectionId, ConnectionRecord>, topic: Topic) -> Set<
    ConnectionId,
> {
    records.dom().filter(|id: ConnectionId| records[id].receives(topic))
}

/// Whether a connection is subscribed to the topic string, as a predicate
/// on identifiers.
pub open spec fn is_subscriber(
    records: Map<ConnectionId, ConnectionRecord>,
    topic: Seq<char>,
) -> spec_fn(ConnectionId) -> bool {
    |id: ConnectionId| records[id].subscriptions.contains(topic)
}

/// The connections that are subscribed to the topic string.
pub open spec fn subscribers(records: Map<ConnectionId, ConnectionRecord>, topic: Seq<char>) -> Set<
    ConnectionId,
> {
    records.dom().filter(is_subscriber(records, topic))
}

/// The identifiers that a list of health reports speaks of, in its order.
pub open spec fn reported_ids(reports: Seq<ConnectionHealth>) -> Seq<ConnectionId> {
    reports.map_values(|health: ConnectionHealth| health.connection_id)
}

/// Whether `reports` holds the health at `now` of every connection, once.
pub open spec fn health_reports_of(
    records: Map<ConnectionId, ConnectionRecord>,
    reports: Seq<ConnectionHealth>,
    now: Timestamp,
    timeout: Millis,
) -> bool {
    &&& reported_ids(reports).no_duplicates()
    &&& reported_ids(reports).to_set() == records.dom()
    &&& forall|k: int|
        0 <= k < reports.len() ==> records[(#[trigger] reports[k]).connection_id].health_is(
            reports[k],
            now,
            timeout,
        )
}

/// The topic strings that a list of counts speaks of, in its order.
pub open spec fn counted_topics(counts: Seq<(String, usize)>) -> Seq<Seq<char>> {
    counts.map_values(|entry: (String, usize)| entry.0@)
}

/// Whether `counts` holds each topic string that `tally` gives a positive
/// number and no other, once, and with that number.
pub open spec fn counts_match(
    counts: Seq<(String, usize)>,
    tally: spec_fn(Seq<char>) -> nat,
) -> bool {
    &&& counted_topics(counts).no_duplicates()
    &&& forall|k: int|
        0 <= k < counts.len() ==> (#[trigger] counts[k]).1 >= 1 && counts[k].1 == tally(
            counts[k].0@,
        )
    &&& forall|topic: Seq<char>|
        tally(topic) > 0 ==> #[trigger] counted_topics(counts).contains(topic)
}

/// Whether `counts` holds, for each topic string that some connection is
/// subscribed to and for no other, the number of such connections, once.
pub open spec fn topic_counts_of(
    records: Map<ConnectionId, ConnectionRecord>,
    counts: Seq<(String, usize)>,
) -> bool {
    counts_match(counts, |topic: Seq<char>| subscribers(records, topic).len())
}

/// How many of the first `upto` connections of a list are subscribed to
/// the topic string, and one more where the string is among `done`.
pub open spec fn tally_so_far(
    records: Map<ConnectionId, ConnectionRecord>,
    ids: Seq<ConnectionId>,
    upto: int,
    done: Seq<Seq<char>>,
    topic: Seq<char>,
) -> nat {
    count_in(ids, upto, is_subscriber(records, topic)) + if done.contains(topic) {
        1nat
    } else {
        0nat
    }
}

/// Counts one more subscriber of a topic string.
fn count_one_more(
    counts: &mut Vec<(String, usize)>,
    topic: &String,
    Ghost(tally): Ghost<spec_fn(Seq<char>) -> nat>,
)
    requires
        counts_match(old(counts)@, tally),
        tally(topic@) < usize::MAX,
    ensures
        counts_match(
            final(counts)@,
            |t: Seq<char>|
                tally(t) + if t == topic@ {
                    1nat
                } else {
                    0nat
                },
        ),
{
    let ghost before = counts@;
    let ghost next = |t: Seq<char>|
        tally(t) + if t == topic@ {
            1nat
        } else {
            0nat
        };
    match count_position(counts, topic.as_str()) {
        Some(at) => {
            let name: String = counts[at].0.clone();
            let n: usize = counts[at].1;
            assert(before[at as int].1 == tally(before[at as int].0@));
            counts.set(at, (name, n + 1));
            assert(counted_topics(counts@) =~= counted_topics(before));
            assert forall|k: int| 0 <= k < counts@.len() implies (#[trigger] counts@[k]).1 >= 1
                && counts@[k].1 == next(counts@[k].0@) by {
                if k != at {
                    assert(counts@[k] == before[k]);
                    assert(counted_topics(before)[k] != counted_topics(before)[at as int]);
                }
            }
            assert forall|t: Seq<char>| next(t) > 0 implies #[trigger] counted_topics(
                counts@,
            ).contains(t) by {
                if t == topic@ {
                    assert(counted_topics(before)[at as int] == t);
                } else {
                    assert(counted_topics(before).contains(t));
                }
            }
        },
        None => {
            counts.push((topic.clone(), 1));
            assert(counted_topics(counts@) =~= counted_topics(before).push(topic@));
            assert(tally(topic@) == 0);
            assert forall|k: int| 0 <= k < counts@.len() implies (#[trigger] counts@[k]).1 >= 1
                && counts@[k].1 == next(counts@[k].0@) by {
                if k < before.len() {
                    assert(counts@[k] == before[k]);
                    assert(counted_topics(before)[k] == before[k].0@);
                    assert(counted_topics(before).contains(before[k].0@));
                }
            }
            assert forall|t: Seq<char>| next(t) > 0 implies #[trigger] counted_topics(
                counts@,
            ).contains(t) by {
                if t == topic@ {
                    assert(counted_topics(counts@)[before.len() as int] == t);
                } else {
                    assert(counted_topics(before).contains(t));
                    let at = choose|at: int|
                        0 <= at < counted_topics(before).len() && counted_topics(before)[at] == t;
                    assert(counted_topics(counts@)[at] == t);
                }
            }
        },
    }
}

/// Where the first count of a topic string stands in a list of counts, if
/// the list has one.
pub fn count_position(counts: &Vec<(String, usize)>, topic: &str) -> (r: Option<usize>)
    ensures
        match r {
            Some(at) => {
                &&& at < counts.len()
                &&& counts[at as int].0@ == topic@
                &&& forall|j: int| 0 <= j < at ==> counted_topics(counts@)[j] != topic@
            },
            None => !counted_topics(counts@).contains(topic@),
        },
{
    let mut i: usize = 0;
    while i < counts.len()
        invariant
            i <= counts.len(),
            forall|j: int| 0 <= j < i ==> counted_topics(counts@)[j] != topic@,
        decreases counts.len() - i,
    {
        if text_eq(counts[i].0.as_str(), topic) {
            return Some(i);
        }
        i += 1;
    }
    None
}

/// The live connections, each under its identifier.
pub struct ConnectionRegistry {
    records: HashMap<ConnectionId, ConnectionInfo>,
}

impl View for ConnectionRegistry {
    type V = Map<ConnectionId, ConnectionRecord>;

    closed spec fn view(&self) -> Map<ConnectionId, ConnectionRecord> {
        record_views(self.records@)
    }
}

impl ConnectionRegistry {
    /// The invariant of the registry.
    pub open spec fn wf(&self) -> bool {
        records_wf(self@)
    }

    /// An empty registry.
    pub fn new() -> (r: Self)
        ensures
            r@ == Map::<ConnectionId, ConnectionRecord>::empty(),
            r.wf(),
    {
        let r = ConnectionRegistry { records: HashMap::new() };
        assert(r@ =~= Map::<ConnectionId, ConnectionRecord>::empty());
        r
    }

    /// The number of records.
    pub fn len(&self) -> (n: usize)
        ensures
            n == self@.len(),
    {
        broadcast use vstd::std_specs::hash::group_hash_axioms;

        assert(self@.dom() =~= self.records@.dom());
        self.records.len()
    }

    /// Whether there is a record of `id`.
    pub fn contains(&self, id: ConnectionId) -> (r: bool)
        ensures
            r == self@.contains_key(id),
    {
        broadcast use vstd::std_specs::hash::group_hash_axioms;

        self.records.contains_key(&id)
    }

    /// Puts a record in, under its own identifier. A record that was there
    /// under that identifier is replaced.
    pub fn insert(&mut self, record: ConnectionInfo)
        requires
            old(self).wf(),
            record@.wf(),
        ensures
            final(self)@ == old(self)@.insert(record.id, record@),
            final(self).wf(),
    {
        broadcast use vstd::std_specs::hash::group_hash_axioms;

        let id: ConnectionId = record.id;
        self.records.insert(id, record);
        assert(self@ =~= old(self)@.insert(id, record@));
    }

    /// Takes the record of `id` out and returns it. Where there is none,
    /// nothing changes and nothing is returned, so removing twice is safe.
    pub fn remove(&mut self, id: ConnectionId) -> (r: Option<ConnectionInfo>)
        requires
            old(self).wf(),
        ensures
            final(self)@ == old(self)@.remove(id),
            final(self).wf(),
            match r {
                Some(record) => old(self)@.contains_key(id) && record@ == old(self)@[id],
                None => !old(self)@.contains_key(id),
            },
    {
        broadcast use vstd::std_specs::hash::group_hash_axioms;

        let r = self.records.remove(&id);
        assert(self@ =~= old(self)@.remove(id));
        r
    }

    /// A copy of the record of `id`, if there is one.
    pub fn get(&self, id: ConnectionId) -> (r: Option<ConnectionInfo>)
        ensures
            match r {
                Some(record) => self@.contains_key(id) && record@ == self@[id],
                None => !self@.contains_key(id),
            },
    {
        broadcast use vstd::std_specs::hash::group_hash_axioms;

        match self.records.get(&id) {
            Some(record) => Some(record.snapshot()),
            None => None,
        }
    }

    /// The record of `id`, if there is one.
    pub fn record(&self, id: ConnectionId) -> (r: Option<&ConnectionInfo>)
        ensures
            match r {
                Some(record) => self@.contains_key(id) && record@ == self@[id],
                None => !self@.contains_key(id),
            },
    {
        broadcast use vstd::std_specs::hash::group_hash_axioms;

        self.records.get(&id)
    }

    /// The identifiers of all records, each once, in no particular order.
    pub fn ids(&self) -> (out: Vec<ConnectionId>)
        ensures
            out@.no_duplicates(),
            out@.to_set() == self@.dom(),
            out@.len() == self@.len(),
    {
        broadcast use vstd::std_specs::hash::group_hash_axioms;

        let mut out: Vec<ConnectionId> = Vec::new();
        let ghost all: Seq<ConnectionId> = self.records.keys().remaining().unref();
        for id in it: self.records.keys()
            invariant
                it.seq().unref() == all,
                out@ == all.take(it.index() as int),
                all.to_set() == self.records@.dom(),
                all.no_duplicates(),
                all.len() == self.records@.dom().len(),
        {
            out.push(*id);
        }
        assert(out@ =~= all);
        assert(self@.dom() =~= self.records@.dom());
        out
    }

    /// A snapshot of all records, each under its identifier.
    pub fn snapshot(&self) -> (copy: HashMap<ConnectionId, ConnectionInfo>)
        ensures
            record_views(copy@) == self@,
    {
        self.records.clone()
    }

    /// Applies `change` to the record of `id` and says whether there is
    /// such a connection. Where there is none, nothing happens: that is no
    /// failure, since a session may ask for a change while its connection
    /// is being taken out. The change has to keep the identifier and the
    /// record well formed.
    pub fn update<F: FnOnce(ConnectionInfo) -> ConnectionInfo>(
        &mut self,
        id: ConnectionId,
        change: F,
    ) -> (found: bool)
        requires
            old(self).wf(),
            forall|record: ConnectionInfo|
                record.id == id && record@.wf() ==> #[trigger] change.requires((record,)),
            forall|record: ConnectionInfo, changed: ConnectionInfo|
                record.id == id && record@.wf() && #[trigger] change.ensures((record,), changed)
                    ==> changed.id == id && changed@.wf(),
        ensures
            found == old(self)@.contains_key(id),
            final(self).wf(),
            !found ==> final(self)@ == old(self)@,
            found ==> exists|record: ConnectionInfo, changed: ConnectionInfo|
                record@ == old(self)@[id] && #[trigger] change.ensures((record,), changed)
                    && final(self)@ == old(self)@.insert(id, changed@),
    {
        broadcast use vstd::std_specs::hash::group_hash_axioms;

        match self.records.remove(&id) {
            Some(record) => {
                assert(old(self)@.contains_key(id));
                assert(record@ == old(self)@[id]);
                assert(record.id == id && record@.wf());
                let changed: ConnectionInfo = change(record);
                self.records.insert(id, changed);
                assert(self@ =~= old(self)@.insert(id, changed@));
                true
            },
            None => {
                assert(self@ =~= old(self)@);
                false
            },
        }
    }

    /// Adds the topic strings to the subscriptions of `id` and says whether
    /// there is such a connection.
    pub fn subscribe(&mut self, id: ConnectionId, topics: &Vec<String>) -> (found: bool)
        requires
            old(self).wf(),
        ensures
            found == old(self)@.contains_key(id),
            final(self)@ == updated(
                old(self)@,
                id,
                |record: ConnectionRecord| record.subscribed(texts(topics@)),
            ),
            final(self).wf(),
    {
        broadcast use vstd::std_specs::hash::group_hash_axioms;

        match self.records.remove(&id) {
            Some(record) => {
                let mut record = record;
                assert(record@ == old(self)@[id]);
                record.subscribe(topics);
                self.records.insert(id, record);
                assert(self@ =~= old(self)@.insert(id, old(self)@[id].subscribed(texts(topics@))));
                true
            },
            None => {
                assert(self@ =~= old(self)@);
                false
            },
        }
    }

    /// Takes the topic strings out of the subscriptions of `id` and says
    /// whether there is such a connection.
    pub fn unsubscribe(&mut self, id: ConnectionId, topics: &Vec<String>) -> (found: bool)
        requires
            old(self).wf(),
        ensures
            found == old(self)@.contains_key(id),
            final(self)@ == updated(
                old(self)@,
                id,
                |record: ConnectionRecord| record.unsubscribed(texts(topics@)),
            ),
            final(self).wf(),
    {
        broadcast use vstd::std_specs::hash::group_hash_axioms;

        match self.records.remove(&id) {
            Some(record) => {
                let mut record = record;
                assert(record@ == old(self)@[id]);
                record.unsubscribe(topics);
                self.records.insert(id, record);
                assert(self@ =~= old(self)@.insert(
                    id,
                    old(self)@[id].unsubscribed(texts(topics@)),
                ));
                true
            },
            None => {
                assert(self@ =~= old(self)@);
                false
            },
        }
    }

    /// Notes that a ping or a pong of `id` was seen at `now` and says
    /// whether there is such a connection.
    pub fn record_ping(&mut self, id: ConnectionId, now: Timestamp) -> (found: bool)
        requires
            old(self).wf(),
        ensures
            found == old(self)@.contains_key(id),
            final(self)@ == updated(old(self)@, id, |record: ConnectionRecord| record.pinged(now)),
            final(self).wf(),
    {
        broadcast use vstd::std_specs::hash::group_hash_axioms;

        match self.records.remove(&id) {
            Some(record) => {
                let mut record = record;
                assert(record@ == old(self)@[id]);
                record.record_ping(now);
                self.records.insert(id, record);
                assert(self@ =~= old(self)@.insert(id, old(self)@[id].pinged(now)));
                true
            },
            None => {
                assert(self@ =~= old(self)@);
                false
            },
        }
    }
}


impl ConnectionRegistry {
    /// Whether a message published on `topic` is delivered to `id`. It is
    /// not where there is no such connection.
    pub fn delivers(&self, topic: &SubscriptionTopic, id: ConnectionId) -> (r: bool)
        requires
            self.wf(),
        ensures
            r == (self@.contains_key(id) && topic@.reaches(id, self@[id].subscriptions)),
    {
        match self.record(id) {
            Some(record) => record.receives(topic),
            None => false,
        }
    }

    /// The number of connections to which a message published on `topic`
    /// is delivered.
    pub fn count_recipients(&self, topic: &SubscriptionTopic) -> (n: usize)
        requires
            self.wf(),
        ensures
            n == recipients(self@, topic@).len(),
            n <= self@.len(),
    {
        let ids: Vec<ConnectionId> = self.ids();
        let ghost p = |id: ConnectionId| self@[id].receives(topic@);
        let mut n: usize = 0;
        let mut i: usize = 0;
        proof {
            lemma_count_in_ends(ids@, p);
        }
        while i < ids.len()
            invariant
                i <= ids.len(),
                self.wf(),
                ids@.to_set() == self@.dom(),
                p == |id: ConnectionId| self@[id].receives(topic@),
                n == count_in(ids@, i as int, p),
                n <= i,
            decreases ids.len() - i,
        {
            proof {
                lemma_count_in_step(ids@, i as int, p);
                assert(ids@.contains(ids@[i as int]));
                assert(ids@.to_set().contains(ids@[i as int]));
            }
            if self.delivers(topic, ids[i]) {
                n += 1;
            }
            i += 1;
        }
        proof {
            assert(ids@.to_set().filter(p) =~= recipients(self@, topic@));
        }
        n
    }

    /// The number of connections that are healthy at `now`.
    pub fn count_healthy(&self, now: Timestamp, timeout: Millis) -> (n: usize)
        ensures
            n == healthy_ids(self@, now, timeout).len(),
            n <= self@.len(),
    {
        let ids: Vec<ConnectionId> = self.ids();
        let ghost p = |id: ConnectionId| self@[id].is_healthy(now, timeout);
        let mut n: usize = 0;
        let mut i: usize = 0;
        proof {
            lemma_count_in_ends(ids@, p);
        }
        while i < ids.len()
            invariant
                i <= ids.len(),
                ids@.to_set() == self@.dom(),
                p == |id: ConnectionId| self@[id].is_healthy(now, timeout),
                n == count_in(ids@, i as int, p),
                n <= i,
            decreases ids.len() - i,
        {
            proof {
                lemma_count_in_step(ids@, i as int, p);
                assert(ids@.contains(ids@[i as int]));
                assert(ids@.to_set().contains(ids@[i as int]));
            }
            match self.record(ids[i]) {
                Some(record) => {
                    let age: i128 = now as i128 - record.last_activity() as i128;
                    if age < timeout as i128 {
                        n += 1;
                    }
                },
                None => {},
            }
            i += 1;
        }
        proof {
            assert(ids@.to_set().filter(p) =~= healthy_ids(self@, now, timeout));
        }
        n
    }

    /// The connections that are stale at `now`, each once, in no particular
    /// order.
    pub fn stale(&self, now: Timestamp, timeout: Millis) -> (out: Vec<ConnectionId>)
        ensures
            out@.no_duplicates(),
            out@.to_set() == stale_ids(self@, now, timeout),
    {
        let ids: Vec<ConnectionId> = self.ids();
        let ghost p = |id: ConnectionId| self@[id].is_stale(now, timeout);
        let mut out: Vec<ConnectionId> = Vec::new();
        let mut i: usize = 0;
        proof {
            reveal(Seq::filter);
            assert(ids@.take(0) =~= Seq::<ConnectionId>::empty());
        }
        while i < ids.len()
            invariant
                i <= ids.len(),
                ids@.to_set() == self@.dom(),
                p == |id: ConnectionId| self@[id].is_stale(now, timeout),
                out@ == ids@.take(i as int).filter(p),
            decreases ids.len() - i,
        {
            proof {
                assert(ids@.take(i + 1) =~= ids@.take(i as int).push(ids@[i as int]));
                ids@.take(i as int).lemma_filter_push(ids@[i as int], p);
                assert(ids@.contains(ids@[i as int]));
                assert(ids@.to_set().contains(ids@[i as int]));
            }
            match self.record(ids[i]) {
                Some(record) => {
                    if record.is_stale(now, timeout) {
                        out.push(ids[i]);
                    }
                },
                None => {},
            }
            i += 1;
        }
        proof {
            assert(ids@.take(ids@.len() as int) =~= ids@);
            lemma_filter_counts_set(ids@, p);
            assert(ids@.to_set().filter(p) =~= stale_ids(self@, now, timeout));
        }
        out
    }

    /// Takes out every connection that is stale at `now` and returns their
    /// identifiers, each once. The list of them is drawn up before the
    /// first is removed.
    pub fn remove_stale(&mut self, now: Timestamp, timeout: Millis) -> (removed: Vec<ConnectionId>)
        requires
            old(self).wf(),
        ensures
            final(self)@ == reaped(old(self)@, now, timeout),
            final(self).wf(),
            removed@.no_duplicates(),
            removed@.to_set() == stale_ids(old(self)@, now, timeout),
    {
        let removed: Vec<ConnectionId> = self.stale(now, timeout);
        let mut i: usize = 0;
        assert(self@ =~= old(self)@.remove_keys(removed@.take(0).to_set()));
        while i < removed.len()
            invariant
                i <= removed.len(),
                self.wf(),
                self@ == old(self)@.remove_keys(removed@.take(i as int).to_set()),
            decreases removed.len() - i,
        {
            let ghost before = self@;
            self.remove(removed[i]);
            proof {
                lemma_take_one_more(removed@, i as int);
                assert(self@ =~= old(self)@.remove_keys(removed@.take(i + 1).to_set()));
            }
            i += 1;
        }
        proof {
            assert(removed@.take(removed@.len() as int) =~= removed@);
        }
        removed
    }

    /// The health at `now` of every connection.
    pub fn health_reports(&self, now: Timestamp, timeout: Millis) -> (reports: Vec<
        ConnectionHealth,
    >)
        requires
            self.wf(),
        ensures
            health_reports_of(self@, reports@, now, timeout),
            reports@.len() == self@.len(),
    {
        let ids: Vec<ConnectionId> = self.ids();
        let mut reports: Vec<ConnectionHealth> = Vec::new();
        let mut i: usize = 0;
        while i < ids.len()
            invariant
                i <= ids.len(),
                ids@.to_set() == self@.dom(),
                self.wf(),
                reported_ids(reports@) == ids@.take(i as int),
                forall|k: int|
                    0 <= k < reports@.len() ==> self@[(#[trigger] reports@[k]).connection_id].health_is(
                        reports@[k],
                        now,
                        timeout,
                    ),
            decreases ids.len() - i,
        {
            proof {
                assert(ids@.contains(ids@[i as int]));
                assert(ids@.to_set().contains(ids@[i as int]));
            }
            match self.record(ids[i]) {
                Some(record) => {
                    let ghost before = reports@;
                    let health: ConnectionHealth = record.health(now, timeout);
                    reports.push(health);
                    assert(reported_ids(reports@) =~= reported_ids(before).push(ids@[i as int]));
                    assert(reported_ids(reports@) =~= ids@.take(i + 1));
                },
                None => {},
            }
            i += 1;
        }
        proof {
            assert(ids@.take(ids@.len() as int) =~= ids@);
        }
        reports
    }
}

impl ConnectionRegistry {
    /// For each topic string that some connection is subscribed to, the
    /// number of such connections.
    pub fn topic_counts(&self) -> (counts: Vec<(String, usize)>)
        requires
            self.wf(),
        ensures
            topic_counts_of(self@, counts@),
    {
        let ids: Vec<ConnectionId> = self.ids();
        let mut counts: Vec<(String, usize)> = Vec::new();
        let ghost none = Seq::<Seq<char>>::empty();
        let mut i: usize = 0;
        proof {
            assert forall|t: Seq<char>| tally_so_far(self@, ids@, 0, none, t) == 0 by {
                lemma_count_in_ends(ids@, is_subscriber(self@, t));
            }
        }
        while i < ids.len()
            invariant
                i <= ids.len(),
                self.wf(),
                none == Seq::<Seq<char>>::empty(),
                ids@.no_duplicates(),
                ids@.to_set() == self@.dom(),
                counts_match(counts@, |t: Seq<char>| tally_so_far(self@, ids@, i as int, none, t)),
            decreases ids.len() - i,
        {
            proof {
                assert(ids@.contains(ids@[i as int]));
                assert(ids@.to_set().contains(ids@[i as int]));
            }
            match self.record(ids[i]) {
                Some(record) => {
                    let ghost wanted = self@[ids@[i as int]].subscriptions;
                    let mut j: usize = 0;
                    assert(wanted.take(0) =~= none);
                    while j < record.subscriptions.len()
                        invariant
                            i < ids.len(),
                            j <= record.subscriptions.len(),
                            wanted == texts(record.subscriptions@),
                            wanted.no_duplicates(),
                            counts_match(
                                counts@,
                                |t: Seq<char>|
                                    tally_so_far(self@, ids@, i as int, wanted.take(j as int), t),
                            ),
                        decreases record.subscriptions.len() - j,
                    {
                        let ghost tally = |t: Seq<char>|
                            tally_so_far(self@, ids@, i as int, wanted.take(j as int), t);
                        let ghost topic = wanted[j as int];
                        proof {
                            lemma_count_in_step(ids@, i as int, is_subscriber(self@, topic));
                            if wanted.take(j as int).contains(topic) {
                                let at = choose|at: int|
                                    0 <= at < wanted.take(j as int).len() && wanted.take(
                                        j as int,
                                    )[at] == topic;
                                assert(wanted[at] == wanted[j as int]);
                            }
                            assert(tally(topic) <= i);
                        }
                        count_one_more(&mut counts, &record.subscriptions[j], Ghost(tally));
                        proof {
                            let next = wanted.take(j + 1);
                            lemma_take_one_more(wanted, j as int);
                            assert forall|t: Seq<char>|
                                tally_so_far(self@, ids@, i as int, next, t) == tally(t) + if t
                                    == topic {
                                    1nat
                                } else {
                                    0nat
                                } by {}
                        }
                        j += 1;
                    }
                    proof {
                        assert(wanted.take(record.subscriptions.len() as int) =~= wanted);
                        assert forall|t: Seq<char>|
                            tally_so_far(self@, ids@, i as int, wanted, t) == tally_so_far(
                                self@,
                                ids@,
                                i + 1,
                                none,
                                t,
                            ) by {
                            lemma_count_in_step(ids@, i as int, is_subscriber(self@, t));
                        }
                    }
                },
                None => {},
            }
            i += 1;
        }
        proof {
            assert forall|t: Seq<char>|
                tally_so_far(self@, ids@, ids@.len() as int, none, t) == subscribers(
                    self@,
                    t,
                ).len() by {
                lemma_count_in_ends(ids@, is_subscriber(self@, t));
            }
        }
        counts
    }
}

} // verus!
