//! The relay of a message-driven actor.

use crate::address::{Address, AddressView};
use crate::message::MessageView;
use crate::relay::lifecycle::{
    all_concern, commands_of, relay_step_is_sound, ActorKind, Lifecycle, RelayAction, RelayEvent,
    RelayState,
};
use crate::relay::mailbox::Mailbox;
use crate::relay::shutdown::{ShutdownHandle, ShutdownListener};
use vstd::prelude::*;

verus! {

/// Owns one message-driven actor and decides, event by event, what is done
/// with it: `initialize` once, `handle_message` on each message of its
/// mailbox in turn until the mailbox closes, a message fails or somebody
/// asks it to stop, `shutdown` once, and then the acknowledgment.
///
/// The relay does not call the actor. Its driver does, as the relay says,
/// and reports back; so what is decided here holds of every actor.
pub struct WorkerRelay<W> {
    worker: W,
    lifecycle: Lifecycle,
}

impl<W> View for WorkerRelay<W> {
    type V = RelayState;

    closed spec fn view(&self) -> RelayState {
        self.lifecycle@
    }
}

impl<W> WorkerRelay<W> {
    /// The relay is in a state that a relay of a message-driven actor can
    /// get into.
    pub closed spec fn wf(&self) -> bool {
        self.lifecycle.wf() && self.lifecycle@.kind == ActorKind::Worker
    }

    /// The address at which the actor lives.
    pub closed spec fn relay(&self) -> AddressView {
        self.lifecycle.relay()
    }

    /// The actor.
    pub closed spec fn actor(&self) -> W {
        self.worker
    }

    /// The relay of `worker`, built and not yet started. The actor lives
    /// at the address that `shutdown_listener` listens for.
    pub fn new(worker: W, shutdown_listener: ShutdownListener) -> (res: Self)
        ensures
            res.wf(),
            res@ == RelayState::initial(ActorKind::Worker),
            res.relay() == shutdown_listener.relay(),
            res.actor() == worker,
    {
        Self { worker, lifecycle: Lifecycle::new(ActorKind::Worker, shutdown_listener) }
    }

    /// Everything that an actor at `address` starts with: its relay, an
    /// empty mailbox to be entered in the router, and the handle with which
    /// the relay can be asked to stop.
    pub fn build(worker: W, address: Address) -> (res: (Self, Mailbox, ShutdownHandle))
        ensures
            res.0.wf(),
            res.0@ == RelayState::initial(ActorKind::Worker),
            res.0.relay() == address@,
            res.0.actor() == worker,
            res.1.wf(),
            res.1@ == Seq::<MessageView>::empty(),
            res.2.relay() == address@,
    {
        let mailbox = Mailbox::new();
        let (handle, listener) = ShutdownHandle::create(address);
        let relay = WorkerRelay::new(worker, listener);
        (relay, mailbox, handle)
    }

    /// The address at which the actor lives.
    pub fn address(&self) -> (res: &Address)
        ensures
            res@ == self.relay(),
    {
        self.lifecycle.address()
    }

    /// The state machine of the relay.
    pub fn lifecycle(&self) -> (res: &Lifecycle)
        ensures
            res@ == self@,
            res.relay() == self.relay(),
            self.wf() ==> res.wf(),
    {
        &self.lifecycle
    }

    /// The actor, to look at.
    pub fn worker(&self) -> (res: &W)
        ensures
            *res == self.actor(),
    {
        &self.worker
    }

    /// The actor, for the driver to run one of its hooks. Whatever the hook
    /// does to the actor, the relay stays in its state.
    pub fn worker_mut(&mut self) -> (res: &mut W)
        ensures
            *res == old(self).actor(),
            final(self).actor() == *final(res),
            final(self)@ == old(self)@,
            final(self).relay() == old(self).relay(),
            old(self).wf() ==> final(self).wf(),
    {
        &mut self.worker
    }

    /// Takes in what the driver reports and answers with what it is to do
    /// next, in order. Between two messages the actor waits, and a request
    /// to stop that finds it waiting takes effect at once.
    pub fn step(&mut self, event: RelayEvent) -> (actions: Vec<RelayAction>)
        requires
            old(self).wf(),
        ensures
            final(self).wf(),
            final(self).relay() == old(self).relay(),
            final(self).actor() == old(self).actor(),
            final(self)@ == old(self)@.next(event).0,
            commands_of(actions@) == old(self)@.next(event).1,
            all_concern(actions@, old(self).relay()),
    {
        proof {
            self.lifecycle.state_is_sound();
            relay_step_is_sound(self@, event);
        }
        self.lifecycle.step(event)
    }
}

} // verus!
