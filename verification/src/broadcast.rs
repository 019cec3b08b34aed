//! The fan-out broadcaster: a bounded channel that hands a copy of every
//! published event to each subscriber that exists at that time.

use crate::events::WatchEvent;
use tokio::sync::broadcast::{Receiver, Sender};
use vstd::prelude::*;

verus! {

/// `tokio::sync::broadcast::Sender`: the sending half of a channel.
#[verifier::external_type_specification]
#[verifier::external_body]
#[verifier::reject_recursive_types(T)]
pub struct ExSender<T>(Sender<T>);

/// `tokio::sync::broadcast::Receiver`: one subscription to a channel.
#[verifier::external_type_specification]
#[verifier::external_body]
#[verifier::reject_recursive_types(T)]
pub struct ExReceiver<T>(Receiver<T>);

/// The capacity that the channel of the engine is made with.
pub const CHANNEL_CAPACITY: usize = 1000;

/// The capacity that the channel behind a sender was made with: the number
/// that was handed to `tokio::sync::broadcast::channel`. The channel keeps
/// that many events for a subscriber that is behind, rounded up to a power
/// of two.
pub uninterp spec fn channel_limit(sender: Sender<WatchEvent>) -> usize;

/// `tokio::sync::broadcast::channel`: the sending half of a new channel
/// that is made with the given capacity. The receiving half that comes with
/// it is dropped, so the channel starts without subscribers. The call
/// panics for a capacity of 0 or above `usize::MAX / 2`.
#[verifier::external_body]
fn open_channel(capacity: usize) -> (sender: Sender<WatchEvent>)
    requires
        0 < capacity <= usize::MAX / 2,
    ensures
        channel_limit(sender) == capacity,
{
    tokio::sync::broadcast::channel(capacity).0
}

/// `Sender::send`: the number of subscribers at the time of the call, which is
/// at least one, or `None` when there was no subscriber and the event was
/// dropped.
#[verifier::external_body]
fn send_event(sender: &Sender<WatchEvent>, event: WatchEvent) -> (receivers: Option<usize>)
    ensures
        receivers matches Some(n) ==> n >= 1,
{
    sender.send(event).ok()
}

/// `Sender::subscribe`: a new subscription, which sees the events sent after
/// this call.
#[verifier::external_body]
fn new_subscription(sender: &Sender<WatchEvent>) -> (receiver: Receiver<WatchEvent>) {
    sender.subscribe()
}

/// `Sender::clone`: another handle to the same channel.
#[verifier::external_body]
fn same_channel(sender: &Sender<WatchEvent>) -> (other: Sender<WatchEvent>) {
    sender.clone()
}

/// The publishing side of the channel.
pub struct Broadcaster {
    sender: Sender<WatchEvent>,
    /// Every event that this broadcaster has handed to at least one
    /// subscriber, oldest first.
    delivered: Ghost<Seq<WatchEvent>>,
    /// Every event that this broadcaster has handed to the channel, with
    /// the number of subscribers that the channel reported for it, oldest
    /// first.
    tried: Ghost<Seq<(WatchEvent, usize)>>,
    /// The mark of the channel.
    mark: Ghost<int>,
}

/// A handle from which subscriptions are made.
pub struct Subscriptions {
    sender: Sender<WatchEvent>,
    /// The mark of the channel that the handle belongs to.
    mark: Ghost<int>,
}

/// One subscription: the receiving end that a viewer reads from.
pub struct Subscription {
    receiver: Receiver<WatchEvent>,
    /// The mark of the channel that the subscription was made on.
    mark: Ghost<int>,
    /// The number of events published before the subscription was made.
    start: Ghost<nat>,
}

impl Subscription {
    /// The mark of the channel that the subscription was made on: that of
    /// the broadcaster or of the handle that made it.
    pub closed spec fn origin(&self) -> int {
        self.mark@
    }

    /// The number of events that the broadcaster had published when it
    /// made the subscription. A subscription made from a handle, while the
    /// broadcaster may be publishing, has no known number.
    pub closed spec fn since(&self) -> nat {
        self.start@
    }

    /// The receiving end that the subscription holds.
    pub closed spec fn receiver(&self) -> Receiver<WatchEvent> {
        self.receiver
    }

    /// The events of a history that were published after the subscription
    /// was made: those that the subscription is for.
    pub open spec fn published_since(&self, history: Seq<WatchEvent>) -> Seq<WatchEvent> {
        if self.since() <= history.len() {
            history.skip(self.since() as int)
        } else {
            Seq::empty()
        }
    }

    /// Hands out the receiving end, from which the events are read.
    pub fn into_receiver(self) -> (receiver: Receiver<WatchEvent>)
        ensures
            receiver == self.receiver(),
    {
        self.receiver
    }
}

impl Broadcaster {
    /// Every event that this broadcaster has handed to at least one
    /// subscriber, oldest first.
    pub closed spec fn published(&self) -> Seq<WatchEvent> {
        self.delivered@
    }

    /// Every event that this broadcaster has handed to the channel, each
    /// with the number of subscribers that the channel reported for it,
    /// oldest first. An event with no subscriber was dropped.
    pub closed spec fn attempts(&self) -> Seq<(WatchEvent, usize)> {
        self.tried@
    }

    /// The capacity that the channel of this broadcaster was made with.
    pub closed spec fn capacity(&self) -> usize {
        channel_limit(self.sender)
    }

    /// The mark of the channel of this broadcaster. The handles and the
    /// subscriptions that are made from a broadcaster carry its mark. Two
    /// broadcasters may have the same mark: a mark tells where a handle or
    /// a subscription cannot come from, not where it comes from.
    pub closed spec fn channel(&self) -> int {
        self.mark@
    }

    /// A broadcaster over a new channel of `CHANNEL_CAPACITY` events, without
    /// subscribers.
    pub fn new() -> (broadcaster: Self)
        ensures
            broadcaster.published() == Seq::<WatchEvent>::empty(),
            broadcaster.attempts().len() == 0,
            broadcaster.capacity() == CHANNEL_CAPACITY,
    {
        Broadcaster {
            sender: open_channel(CHANNEL_CAPACITY),
            delivered: Ghost(Seq::empty()),
            tried: Ghost(Seq::empty()),
            mark: Ghost(arbitrary()),
        }
    }

    /// A broadcaster over a new channel that is made with the given
    /// capacity, without subscribers and with nothing published.
    pub fn with_capacity(capacity: usize) -> (broadcaster: Self)
        requires
            0 < capacity <= usize::MAX / 2,
        ensures
            broadcaster.published() == Seq::<WatchEvent>::empty(),
            broadcaster.attempts().len() == 0,
            broadcaster.capacity() == capacity,
    {
        Broadcaster {
            sender: open_channel(capacity),
            delivered: Ghost(Seq::empty()),
            tried: Ghost(Seq::empty()),
            mark: Ghost(arbitrary()),
        }
    }

    /// Hands the event to the channel, once, and returns how many
    /// subscribers the channel reported for it. Without subscribers the
    /// event is dropped and nothing is published. The channel stays the
    /// same.
    pub fn publish(&mut self, event: WatchEvent) -> (receivers: usize)
        ensures
            final(self).attempts() == old(self).attempts().push((event, receivers)),
            final(self).published() == publish_outcome(old(self).published(), event, receivers),
            final(self).channel() == old(self).channel(),
            final(self).capacity() == old(self).capacity(),
    {
        let ghost sent = event;
        match send_event(&self.sender, event) {
            Some(n) => {
                proof {
                    self.delivered@ = self.delivered@.push(sent);
                    self.tried@ = self.tried@.push((sent, n));
                }
                n
            },
            None => {
                proof {
                    self.tried@ = self.tried@.push((sent, 0));
                }
                0
            },
        }
    }

    /// A new subscription on the channel of this broadcaster. It is for
    /// every event published after this call and for none published
    /// before.
    pub fn subscribe(&self) -> (subscription: Subscription)
        ensures
            subscription.origin() == self.channel(),
            subscription.since() == self.published().len(),
    {
        Subscription {
            receiver: new_subscription(&self.sender),
            mark: Ghost(self.mark@),
            start: Ghost(self.delivered@.len()),
        }
    }

    /// A handle from which subscriptions to this broadcaster are made.
    pub fn subscriptions(&self) -> (handle: Subscriptions)
        ensures
            handle.channel() == self.channel(),
    {
        Subscriptions { sender: same_channel(&self.sender), mark: Ghost(self.mark@) }
    }
}

impl Subscriptions {
    /// The mark of the channel that the handle belongs to.
    pub closed spec fn channel(&self) -> int {
        self.mark@
    }

    /// A new subscription on the channel of the handle. It is for every
    /// event published after this call and for none published before.
    pub fn subscribe(&self) -> (subscription: Subscription)
        ensures
            subscription.origin() == self.channel(),
    {
        Subscription {
            receiver: new_subscription(&self.sender),
            mark: Ghost(self.mark@),
            start: Ghost(arbitrary()),
        }
    }
}

/// What has been published after one more `publish`, given the number of
/// subscribers that the channel reported for it.
pub open spec fn publish_outcome(before: Seq<WatchEvent>, event: WatchEvent, receivers: usize) -> Seq<
    WatchEvent,
> {
    if receivers == 0 {
        before
    } else {
        before.push(event)
    }
}

} // verus!
