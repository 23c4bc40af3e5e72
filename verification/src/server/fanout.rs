//! The fan-out channels: one bounded, best-effort broadcast per source.
//!
//! The channels are tokio's. A subscriber that falls behind loses the oldest
//! payloads and never blocks the sender; it recovers with the next payload,
//! which always carries the whole current state.

use crate::public::ServiceType;
use crate::server::server::{GrpcData, GrpcDataView};
use tokio::sync::broadcast::{Receiver, Sender};
use vstd::arithmetic::power2::{lemma2_to64, pow2};
use vstd::prelude::*;

verus! {

#[verifier::external_type_specification]
#[verifier::external_body]
#[verifier::reject_recursive_types(T)]
pub struct ExSender<T>(Sender<T>);

#[verifier::external_type_specification]
#[verifier::external_body]
#[verifier::reject_recursive_types(T)]
pub struct ExReceiver<T>(Receiver<T>);

/// The number of payloads that the channel behind `sender` retains for a
/// receiver that falls behind. It is fixed when the channel is made.
pub uninterp spec fn fanout_capacity(sender: Sender<GrpcData>) -> nat;

/// The number of payloads that the channel behind `receiver` retains for it
/// while it falls behind: past that many, the receiver lags.
pub uninterp spec fn fanout_receiver_capacity(receiver: Receiver<GrpcData>) -> nat;

/// `n` is a power of two.
pub open spec fn spec_is_power_of_two(n: nat) -> bool {
    exists|k: nat| pow2(k) == n
}

/// `tokio::sync::broadcast::channel`, of which only the sending half is
/// kept: the channel starts without a receiver. tokio panics on a capacity
/// of zero or above `usize::MAX / 2`, so those are excluded. tokio rounds
/// the capacity up to the next power of two and retains that many values:
/// the claim is that a capacity which is a power of two is retained as it
/// is. Nothing else is claimed about the sender.
#[verifier::external_body]
fn broadcast_channel(capacity: usize) -> (sender: Sender<GrpcData>)
    requires
        0 < capacity <= usize::MAX / 2,
    ensures
        spec_is_power_of_two(capacity as nat) ==> fanout_capacity(sender) == capacity,
{
    tokio::sync::broadcast::channel(capacity).0
}

/// `tokio::sync::broadcast::Sender::send`. tokio answers with the number of
/// receivers that were subscribed when the value was queued, or with an
/// error when there was none; the error is given as `None`. How many
/// receivers there are depends on the other tasks, so the only claim is the
/// one that tokio's source shows for every call: a success never counts
/// zero receivers.
#[verifier::external_body]
fn broadcast_send(sender: &Sender<GrpcData>, payload: GrpcData) -> (receivers: Option<usize>)
    ensures
        receivers != Some(0usize),
{
    match sender.send(payload) {
        Ok(n) => Some(n),
        Err(_) => None,
    }
}

/// `tokio::sync::broadcast::Sender::subscribe`: a receiver that sees the
/// values sent after this call. tokio hands the sender's shared state, with
/// its ring buffer, to the new receiver: the claim is that the receiver is
/// retained as many values as the sender's channel retains. What it will
/// receive depends on the other tasks and is not claimed. tokio panics
/// where the channel has `usize::MAX >> 2` receivers already, a count that
/// no argument of this call decides.
#[verifier::external_body]
fn broadcast_subscribe(sender: &Sender<GrpcData>) -> (receiver: Receiver<GrpcData>)
    ensures
        fanout_receiver_capacity(receiver) == fanout_capacity(*sender),
{
    sender.subscribe()
}

/// One fan-out send as a mathematical value.
pub struct BroadcastView {
    /// The source whose channel the payload went to.
    pub service_type: ServiceType,
    /// Number of receivers the payload was queued for; `None` when the
    /// channel had no receiver and the payload went nowhere.
    pub receivers: Option<usize>,
    /// The payload that was handed to the channel.
    pub payload: GrpcDataView,
}

/// The record of one fan-out send: what was sent where, and what the
/// channel answered. Only `FanoutChannels::send` makes one.
#[derive(Debug, PartialEq, Eq)]
pub struct Broadcast {
    service_type: ServiceType,
    receivers: Option<usize>,
    payload: GrpcData,
}

impl View for Broadcast {
    type V = BroadcastView;

    closed spec fn view(&self) -> BroadcastView {
        BroadcastView { service_type: self.service_type, receivers: self.receivers, payload: self.payload@ }
    }
}

impl Broadcast {
    /// The source whose channel the payload went to.
    pub fn service_type(&self) -> (service_type: ServiceType)
        ensures
            service_type == self@.service_type,
    {
        self.service_type
    }

    /// Number of receivers the payload was queued for; `None` when the
    /// channel had no receiver.
    pub fn receivers(&self) -> (receivers: Option<usize>)
        ensures
            receivers == self@.receivers,
    {
        self.receivers
    }

    /// The payload that was handed to the channel.
    pub fn payload(&self) -> (payload: &GrpcData)
        ensures
            payload@ == self@.payload,
    {
        &self.payload
    }
}

/// The fan-out channels, one per source.
pub struct FanoutChannels {
    senders: [Sender<GrpcData>; ServiceType::LEN],
}

impl FanoutChannels {
    /// Payloads that a channel retains for a lagging subscriber.
    pub const CAPACITY: usize = 2;

    /// The number of payloads that the channel of `service_type` retains
    /// for a subscriber that falls behind.
    pub closed spec fn capacity(self, service_type: ServiceType) -> nat {
        fanout_capacity(self.senders@[service_type.spec_index()])
    }

    /// A fresh channel for every source, each without receivers and each
    /// retaining `CAPACITY` payloads.
    pub fn new() -> (channels: Self)
        ensures
            forall|service_type: ServiceType| #[trigger] channels.capacity(service_type) == Self::CAPACITY,
    {
        proof {
            lemma2_to64();
            assert(pow2(1) == Self::CAPACITY);
            assert(spec_is_power_of_two(Self::CAPACITY as nat));
        }
        FanoutChannels {
            senders: [broadcast_channel(Self::CAPACITY), broadcast_channel(Self::CAPACITY)],
        }
    }

    /// Broadcasts `payload` to the subscribers of `service_type` and records
    /// the send. The send is best effort: it never blocks and is not
    /// retried.
    pub fn send(&self, service_type: ServiceType, payload: GrpcData) -> (sent: Broadcast)
        ensures
            sent@.service_type == service_type,
            sent@.payload == payload@,
            sent@.receivers != Some(0usize),
    {
        let copy = payload.clone();
        let receivers = broadcast_send(&self.senders[service_type.index()], payload);
        Broadcast { service_type, receivers, payload: copy }
    }

    /// A new receiver on the channel of `service_type`, for the payloads
    /// that are sent from now on. It is retained as many payloads as that
    /// channel retains.
    pub fn subscribe(&self, service_type: ServiceType) -> (receiver: Receiver<GrpcData>)
        ensures
            fanout_receiver_capacity(receiver) == self.capacity(service_type),
    {
        broadcast_subscribe(&self.senders[service_type.index()])
    }
}

} // verus!
