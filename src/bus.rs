//! The room bus: a bounded broadcast channel of envelopes, from tokio.
//!
//! A subscriber that falls more than the capacity behind is told how many
//! envelopes it missed; publishers never wait for it.

use vstd::prelude::*;
use tokio::sync::broadcast::error::TryRecvError;
use tokio::sync::broadcast::{Receiver, Sender};
use crate::envelope::WSMessage;

verus! {

/// tokio's `broadcast::Sender`, carried as an opaque value.
#[verifier::external_type_specification]
#[verifier::external_body]
#[verifier::reject_recursive_types(T)]
pub struct ExSender<T>(Sender<T>);

/// tokio's `broadcast::Receiver`, carried as an opaque value.
#[verifier::external_type_specification]
#[verifier::external_body]
#[verifier::reject_recursive_types(T)]
pub struct ExReceiver<T>(Receiver<T>);

/// The channel that a sender is a handle on: handles cloned from one sender
/// share it.
pub uninterp spec fn channel_of(s: Sender<WSMessage>) -> int;

/// The capacity that a sender's channel was made with.
pub uninterp spec fn capacity_of(s: Sender<WSMessage>) -> nat;

/// Envelopes that a subscriber may fall behind by before it lags.
pub const BUS_CAPACITY: usize = 64;

/// What a subscriber finds when it looks at the bus.
#[derive(Debug)]
pub enum BusEvent {
    /// The next envelope, in publish order.
    Item(WSMessage),
    /// Nothing new yet.
    Empty,
    /// This many envelopes were dropped before this subscriber read them.
    Lagged(u64),
    /// Every publishing handle is gone.
    Closed,
}

/// Relies on tokio's `broadcast::channel`, which panics on a capacity of zero
/// or above `usize::MAX / 2`. The first receiver is dropped: subscribers come
/// from the sender.
#[verifier::external_body]
fn open_channel(capacity: usize) -> (r: Sender<WSMessage>)
    requires
        0 < capacity <= usize::MAX / 2,
    ensures
        capacity_of(r) == capacity,
{
    let (tx, _rx) = tokio::sync::broadcast::channel(capacity);
    tx
}

/// Relies on `Clone` for tokio's `broadcast::Sender`: a handle on the same
/// channel.
#[verifier::external_body]
fn clone_sender(s: &Sender<WSMessage>) -> (r: Sender<WSMessage>)
    ensures
        channel_of(r) == channel_of(*s),
        capacity_of(r) == capacity_of(*s),
{
    s.clone()
}

/// Relies on tokio's `broadcast::Sender::send`: the number of subscribers
/// that were handed the envelope; none is no failure.
#[verifier::external_body]
fn send_on(s: &Sender<WSMessage>, e: WSMessage) -> (r: usize) {
    match s.send(e) {
        Ok(n) => n,
        Err(_) => 0,
    }
}

/// Relies on tokio's `broadcast::Sender::subscribe`: a receiver that sees what
/// is sent from now on.
#[verifier::external_body]
fn subscribe_on(s: &Sender<WSMessage>) -> (r: Receiver<WSMessage>) {
    s.subscribe()
}

/// Relies on tokio's `broadcast::Receiver::resubscribe`: a receiver at the
/// channel's current tail.
#[verifier::external_body]
fn resubscribe_on(r: &Receiver<WSMessage>) -> (n: Receiver<WSMessage>) {
    r.resubscribe()
}

/// Relies on tokio's `broadcast::Sender::same_channel`: whether both handles
/// share one channel (`Arc::ptr_eq` on the shared state).
#[verifier::external_body]
fn same_channel(a: &Sender<WSMessage>, b: &Sender<WSMessage>) -> (r: bool)
    ensures
        r == (channel_of(*a) == channel_of(*b)),
{
    a.same_channel(b)
}

/// Relies on tokio's `broadcast::Receiver::try_recv`, one outcome for each of
/// its results.
#[verifier::external_body]
fn try_receive(r: &mut Receiver<WSMessage>) -> (e: BusEvent) {
    match r.try_recv() {
        Ok(m) => BusEvent::Item(m),
        Err(TryRecvError::Empty) => BusEvent::Empty,
        Err(TryRecvError::Lagged(n)) => BusEvent::Lagged(n),
        Err(TryRecvError::Closed) => BusEvent::Closed,
    }
}

/// A handle on one room's bus. Besides its channel it carries the id that
/// the registry gave the bus: handles shared from one bus carry the same id.
pub struct RoomBus {
    id: u64,
    sender: Sender<WSMessage>,
}

/// One subscriber's place on a room's bus.
pub struct Subscription {
    receiver: Receiver<WSMessage>,
}

impl RoomBus {
    pub closed spec fn id_spec(&self) -> u64 {
        self.id
    }

    /// The channel this handle publishes on.
    pub closed spec fn channel(&self) -> int {
        channel_of(self.sender)
    }

    /// Envelopes a subscriber may fall behind by before it lags.
    pub closed spec fn capacity(&self) -> nat {
        capacity_of(self.sender)
    }

    pub fn id(&self) -> (r: u64)
        ensures
            r == self.id_spec(),
    {
        self.id
    }

    /// A new bus of [`BUS_CAPACITY`] envelopes per subscriber.
    pub fn new(id: u64) -> (r: RoomBus)
        ensures
            r.id_spec() == id,
            r.capacity() == BUS_CAPACITY,
    {
        RoomBus { id, sender: open_channel(BUS_CAPACITY) }
    }

    /// Another handle on the same bus.
    pub fn share(&self) -> (r: RoomBus)
        ensures
            r.id_spec() == self.id_spec(),
            r.channel() == self.channel(),
            r.capacity() == self.capacity(),
    {
        RoomBus { id: self.id, sender: clone_sender(&self.sender) }
    }

    /// Hands `e` to every current subscriber; gives how many there were.
    pub fn publish(&self, e: WSMessage) -> (r: usize) {
        send_on(&self.sender, e)
    }

    /// A subscriber that sees what is published from now on.
    pub fn subscribe(&self) -> (r: Subscription) {
        Subscription { receiver: subscribe_on(&self.sender) }
    }

    /// Whether both handles publish on one channel.
    pub fn same_bus(&self, other: &RoomBus) -> (r: bool)
        ensures
            r == (self.channel() == other.channel()),
    {
        same_channel(&self.sender, &other.sender)
    }
}

impl Subscription {
    /// The next envelope, or why there is none.
    pub fn next(&mut self) -> (r: BusEvent) {
        try_receive(&mut self.receiver)
    }

    /// The underlying receiver, for a caller that waits on it.
    pub fn into_receiver(self) -> (r: Receiver<WSMessage>) {
        self.receiver
    }

    /// Moves this subscriber to the bus's current tail, past whatever it
    /// has not read.
    pub fn resync(&mut self) {
        self.receiver = resubscribe_on(&self.receiver);
    }
}

} // verus!
