//! The rendezvous between whoever asks a relay to stop and the relay.
//!
//! Two one-shot channels make it up: one carries the request to the relay,
//! the other carries the acknowledgment back. Each end can be used once:
//! signalling uses up the handle and consuming uses up the listener, so
//! that a second use does not compile.

use crate::address::{Address, AddressView};
use tokio::sync::oneshot::{Receiver, Sender};
use vstd::prelude::*;

verus! {

/// The sending half of a one-shot channel, `tokio::sync::oneshot::Sender`.
/// Nothing is known of what is inside.
#[verifier::external_type_specification]
#[verifier::external_body]
#[verifier::reject_recursive_types(T)]
pub struct ExOneshotSender<T>(tokio::sync::oneshot::Sender<T>);

/// The receiving half of a one-shot channel,
/// `tokio::sync::oneshot::Receiver`. Nothing is known of what is inside.
#[verifier::external_type_specification]
#[verifier::external_body]
#[verifier::reject_recursive_types(T)]
pub struct ExOneshotReceiver<T>(tokio::sync::oneshot::Receiver<T>);

/// What waiting on a receiver ends with where the sender is gone,
/// `tokio::sync::oneshot::error::RecvError`. It is declared because the
/// receiver's type speaks of it; nothing here ever holds one.
#[verifier::external_type_specification]
#[verifier::external_body]
pub struct ExOneshotRecvError(tokio::sync::oneshot::error::RecvError);

/// `tokio::sync::oneshot::channel` makes the two halves of a fresh channel.
/// Nothing is claimed of them.
pub assume_specification<T>[ tokio::sync::oneshot::channel::<T> ]() -> (ends: (
    tokio::sync::oneshot::Sender<T>,
    tokio::sync::oneshot::Receiver<T>,
))
;

/// `tokio::sync::oneshot::Sender::send` puts the value into the channel
/// without waiting. Whether it succeeds depends on the other half: where the
/// receiver is gone, the value comes back as the error. That it is the same
/// value is all that is claimed.
pub assume_specification<T>[ tokio::sync::oneshot::Sender::<T>::send ](
    sender: tokio::sync::oneshot::Sender<T>,
    t: T,
) -> (res: Result<(), T>)
    ensures
        res matches Err(back) ==> back == t,
;

/// The requester's end: the right to ask the relay at one address to stop,
/// once, and then to hear that it has.
#[derive(Debug)]
pub struct ShutdownHandle {
    address: Address,
    tx_shutdown: Sender<()>,
    rx_ack: Receiver<()>,
}

/// The relay's end: the right to hear the request and to acknowledge, once,
/// that the relay has shut down.
#[derive(Debug)]
pub struct ShutdownListener {
    address: Address,
    rx_shutdown: Receiver<()>,
    tx_ack: Sender<()>,
}

impl ShutdownHandle {
    /// The address of the relay that this handle stops.
    pub closed spec fn relay(&self) -> AddressView {
        self.address@
    }

    /// The two ends of a fresh rendezvous for the relay at `address`.
    pub fn create(address: Address) -> (ends: (ShutdownHandle, ShutdownListener))
        ensures
            ends.0.relay() == address@,
            ends.1.relay() == address@,
    {
        let (tx_shutdown, rx_shutdown) = tokio::sync::oneshot::channel::<()>();
        let (tx_ack, rx_ack) = tokio::sync::oneshot::channel::<()>();
        let other = address.clone();
        (
            ShutdownHandle { address, tx_shutdown, rx_ack },
            ShutdownListener { address: other, rx_shutdown, tx_ack },
        )
    }

    /// The address of the relay that this handle stops.
    pub fn address(&self) -> (res: &Address)
        ensures
            res@ == self.relay(),
    {
        &self.address
    }

    /// The end of this handle on which the acknowledgment arrives.
    pub closed spec fn ack_end(&self) -> Receiver<()> {
        self.rx_ack
    }

    /// Asks the relay to stop. The handle is used up. What comes back says
    /// whether the request could be handed over, which it cannot where the
    /// relay has dropped its end, and gives the handle's own end for the
    /// acknowledgment, on which it will arrive.
    pub fn signal(self) -> (res: (bool, Receiver<()>))
        ensures
            res.1 == self.ack_end(),
    {
        let sent = self.tx_shutdown.send(());
        (sent.is_ok(), self.rx_ack)
    }
}

impl ShutdownListener {
    /// The address of the relay that listens.
    pub closed spec fn relay(&self) -> AddressView {
        self.address@
    }

    /// The address of the relay that listens.
    pub fn address(&self) -> (res: &Address)
        ensures
            res@ == self.relay(),
    {
        &self.address
    }

    /// The end of this listener on which the request arrives.
    pub closed spec fn request_end(&self) -> Receiver<()> {
        self.rx_shutdown
    }

    /// The end of this listener that acknowledges.
    pub closed spec fn ack_end(&self) -> Sender<()> {
        self.tx_ack
    }

    /// Splits the listener into its two ends: the one on which the request
    /// arrives, and the one that acknowledges. The listener is used up.
    pub fn consume(self) -> (ends: (Receiver<()>, Sender<()>))
        ensures
            ends.0 == self.request_end(),
            ends.1 == self.ack_end(),
    {
        (self.rx_shutdown, self.tx_ack)
    }
}

} // verus!
