//! The event bus: a broadcast channel on which every stage of a task's life
//! is announced to whoever has subscribed.

use crate::task::TaskEvent;
use vstd::prelude::*;

verus! {

/// The sending half of a `tokio` broadcast channel, carried through unread.
#[verifier::external_type_specification]
#[verifier::external_body]
#[verifier::reject_recursive_types(T)]
pub struct ExBroadcastSender<T>(tokio::sync::broadcast::Sender<T>);

/// A subscription to a `tokio` broadcast channel, carried through unread.
#[verifier::external_type_specification]
#[verifier::external_body]
#[verifier::reject_recursive_types(T)]
pub struct ExBroadcastReceiver<T>(tokio::sync::broadcast::Receiver<T>);

/// The channel that a sending half belongs to, as a number that tells one
/// channel from another. Two halves belong to one channel where tokio's
/// `same_channel` says so.
pub uninterp spec fn channel_of_sender(sender: tokio::sync::broadcast::Sender<TaskEvent>) -> int;

/// The channel that a subscription listens to.
pub uninterp spec fn channel_of_subscription(
    subscription: tokio::sync::broadcast::Receiver<TaskEvent>,
) -> int;

/// How many events a channel was opened to hold for each subscriber.
pub uninterp spec fn channel_capacity(channel: int) -> usize;

/// One more sending half, by the `clone` of
/// `tokio::sync::broadcast::Sender`.
///
/// Trusted: the new half belongs to the channel of the old one.
#[verifier::external_body]
fn another_sender(sender: &tokio::sync::broadcast::Sender<TaskEvent>) -> (another:
    tokio::sync::broadcast::Sender<TaskEvent>)
    ensures
        channel_of_sender(another) == channel_of_sender(*sender),
{
    sender.clone()
}

/// Opens a broadcast channel with `tokio::sync::broadcast::channel`.
///
/// Trusted: the two halves belong to one channel, opened to hold `capacity`
/// events. The call panics on a capacity of 0 or above `usize::MAX / 2`,
/// which `requires` leaves out.
#[verifier::external_body]
fn open_broadcast(capacity: usize) -> (halves: (
    tokio::sync::broadcast::Sender<TaskEvent>,
    tokio::sync::broadcast::Receiver<TaskEvent>,
))
    requires
        0 < capacity <= usize::MAX / 2,
    ensures
        channel_of_subscription(halves.1) == channel_of_sender(halves.0),
        channel_capacity(channel_of_sender(halves.0)) == capacity,
{
    tokio::sync::broadcast::channel(capacity)
}

/// Sends `event` to every subscriber with
/// `tokio::sync::broadcast::Sender::send`, and hands back how many
/// subscribers there were, or nothing where there was none.
///
/// Trusted: the call fails exactly when the channel has no subscriber, so a
/// count handed back is at least 1. The call does not wait for subscribers
/// to read.
#[verifier::external_body]
fn broadcast(sender: &tokio::sync::broadcast::Sender<TaskEvent>, event: TaskEvent) -> (subscribers:
    Option<usize>)
    ensures
        subscribers matches Some(count) ==> count >= 1,
{
    sender.send(event).ok()
}

/// Subscribes to the channel with
/// `tokio::sync::broadcast::Sender::subscribe`.
///
/// Trusted: the subscription listens to the channel of the sending half.
/// Nothing is claimed of what it will receive.
#[verifier::external_body]
fn tap(sender: &tokio::sync::broadcast::Sender<TaskEvent>) -> (subscription:
    tokio::sync::broadcast::Receiver<TaskEvent>)
    ensures
        channel_of_subscription(subscription) == channel_of_sender(*sender),
{
    sender.subscribe()
}

/// How many events the bus holds for a subscriber that has fallen behind,
/// before the oldest is lost to it.
pub const EVENT_BUFFER_CAPACITY: usize = 256;

/// The event bus. Every event published on it goes to every subscriber of
/// the moment, in the order of publication. The bus keeps
/// `EVENT_BUFFER_CAPACITY` events for a subscriber that has fallen behind;
/// beyond that the subscriber loses its oldest unread events, and the
/// publisher is never held up.
pub struct EventBus {
    sender: tokio::sync::broadcast::Sender<TaskEvent>,
}

impl Clone for EventBus {
    /// One more handle on the same bus.
    fn clone(&self) -> (copy: EventBus)
        ensures
            copy.channel() == self.channel(),
    {
        EventBus { sender: another_sender(&self.sender) }
    }
}

impl EventBus {
    /// The channel behind this bus. Handles with the same channel are
    /// handles on one bus.
    pub closed spec fn channel(&self) -> int {
        channel_of_sender(self.sender)
    }

    /// A new bus, opened to hold `EVENT_BUFFER_CAPACITY` events for each
    /// subscriber, with no subscriber yet.
    pub fn new() -> (bus: EventBus)
        ensures
            channel_capacity(bus.channel()) == EVENT_BUFFER_CAPACITY,
    {
        let (sender, _) = open_broadcast(EVENT_BUFFER_CAPACITY);
        EventBus { sender }
    }

    /// Publishes `event` to the subscribers of the moment and hands back how
    /// many they were, or nothing where there was none and the event is
    /// lost.
    pub fn publish(&self, event: TaskEvent) -> (subscribers: Option<usize>)
        ensures
            subscribers matches Some(count) ==> count >= 1,
    {
        broadcast(&self.sender, event)
    }

    /// A new subscription to this bus: it receives its own copy of every
    /// event published from now on, and none of those published before.
    pub fn subscribe(&self) -> (subscription: tokio::sync::broadcast::Receiver<TaskEvent>)
        ensures
            channel_of_subscription(subscription) == self.channel(),
    {
        tap(&self.sender)
    }
}

} // verus!
