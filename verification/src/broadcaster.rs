//! The fan-out channel that carries published messages to every connection.
//!
//! The channel keeps a bounded backlog for its subscribers. Publishing never
//! waits: a subscriber that falls behind loses its oldest unread entries and
//! is told how many it skipped when it next reads.

use vstd::prelude::*;
use tokio::sync::broadcast::{Receiver, Sender};
use crate::message::WsMessage;
use crate::topic::{SubscriptionTopic, Topic};

verus! {

/// The sending half of a `tokio` broadcast channel.
#[verifier::external_type_specification]
#[verifier::external_body]
#[verifier::reject_recursive_types(T)]
pub struct ExSender<T>(Sender<T>);

/// A subscriber handle of a `tokio` broadcast channel.
#[verifier::external_type_specification]
#[verifier::external_body]
#[verifier::reject_recursive_types(T)]
pub struct ExReceiver<T>(Receiver<T>);

/// The capacity that a channel was made with: how many messages a
/// subscriber of it may at least fall behind before it loses any.
pub uninterp spec fn made_with(sender: Sender<(SubscriptionTopic, WsMessage)>) -> usize;

/// Makes a channel with `tokio::sync::broadcast::channel` and keeps its
/// sending half; the first subscriber handle is dropped, so the channel
/// starts without subscribers. Trusted: the channel is made with the
/// capacity that is given, which the outside function rounds up to a power
/// of two and allocates at once; nothing else is claimed of the channel.
/// The outside function panics on a capacity of zero or above half of
/// `usize::MAX`, which `requires` leaves out.
#[verifier::external_body]
fn open_channel(capacity: usize) -> (sender: Sender<(SubscriptionTopic, WsMessage)>)
    requires
        0 < capacity <= usize::MAX / 2,
    ensures
        made_with(sender) == capacity,
{
    tokio::sync::broadcast::channel(capacity).0
}

/// Hands a message to `Sender::send`. Trusted: the outside function returns
/// the number of subscriber handles, which is then at least one, and fails
/// where there is none.
#[verifier::external_body]
fn channel_send(
    sender: &Sender<(SubscriptionTopic, WsMessage)>,
    topic: SubscriptionTopic,
    message: WsMessage,
) -> (r: Option<usize>)
    ensures
        r matches Some(n) ==> n >= 1,
{
    sender.send((topic, message)).ok()
}

/// Asks `Sender::receiver_count` for the number of subscriber handles.
/// Trusted, and nothing is claimed of the number: handles come and go
/// elsewhere.
#[verifier::external_body]
fn channel_receiver_count(sender: &Sender<(SubscriptionTopic, WsMessage)>) -> (n: usize) {
    sender.receiver_count()
}

/// Makes a new subscriber handle with `Sender::subscribe`. Trusted, and
/// nothing is claimed of the handle. The outside function panics where the
/// channel has a quarter of `usize::MAX` handles already; no argument
/// decides that.
#[verifier::external_body]
fn channel_subscribe(sender: &Sender<(SubscriptionTopic, WsMessage)>) -> (handle: Receiver<
    (SubscriptionTopic, WsMessage),
>) {
    sender.subscribe()
}

/// The number of subscribers that a publication was handed to: the number
/// that the channel reported, or zero where it reported that it has none.
pub open spec fn handed_to(outcome: Option<usize>) -> usize {
    match outcome {
        Some(n) => n,
        None => 0,
    }
}

/// The broadcaster: one channel for all topics. Every live connection holds
/// one subscriber handle and filters what it reads.
pub struct Broadcaster {
    sender: Sender<(SubscriptionTopic, WsMessage)>,
    handed: Ghost<Seq<(Topic, WsMessage)>>,
}

impl Broadcaster {
    /// The capacity that the broadcaster was made with.
    pub closed spec fn capacity(&self) -> usize {
        made_with(self.sender)
    }

    /// What was handed to the broadcaster so far: each message with the
    /// topic it was published on, in the order of the calls.
    pub closed spec fn published(&self) -> Seq<(Topic, WsMessage)> {
        self.handed@
    }

    /// A broadcaster whose subscribers may fall `capacity` messages behind
    /// before they lose any. Nothing was handed to it yet.
    pub fn new(capacity: usize) -> (r: Self)
        requires
            0 < capacity <= usize::MAX / 2,
        ensures
            r.capacity() == capacity,
            r.published() == Seq::<(Topic, WsMessage)>::empty(),
    {
        Broadcaster { sender: open_channel(capacity), handed: Ghost(Seq::empty()) }
    }

    /// The number of subscribers that a publication was handed to, from
    /// what the channel reported. Having no subscribers is no failure.
    pub fn delivered(outcome: Option<usize>) -> (n: usize)
        ensures
            n == handed_to(outcome),
    {
        match outcome {
            Some(n) => n,
            None => 0,
        }
    }

    /// Publishes a message on a topic: topic and message are handed to the
    /// channel as they came. Returns the number of subscriber handles at
    /// that moment, which is only informative. Never waits.
    pub fn publish(&mut self, topic: SubscriptionTopic, message: WsMessage) -> (n: usize)
        ensures
            final(self).published() == old(self).published().push((topic@, message)),
            final(self).capacity() == old(self).capacity(),
    {
        let ghost entry = (topic@, message);
        let outcome: Option<usize> = channel_send(&self.sender, topic, message);
        proof {
            self.handed@ = self.handed@.push(entry);
        }
        Broadcaster::delivered(outcome)
    }

    /// The number of subscriber handles at this moment.
    pub fn subscriber_count(&self) -> (n: usize) {
        channel_receiver_count(&self.sender)
    }

    /// A new subscriber handle. It sees what is published from now on.
    pub fn subscribe(&self) -> (handle: Receiver<(SubscriptionTopic, WsMessage)>) {
        channel_subscribe(&self.sender)
    }
}

} // verus!
