//! The state of one node: what all of its relays share.
//!
//! A node is made when the node starts and handed by reference to whoever
//! works on it; nothing of it is global. It holds the router with the
//! mailboxes, the admission tables, the live secure channels, and the handle
//! of every relay that can still be asked to stop.

use crate::address::{Address, AddressView, Route};
use crate::flow_control::{FlowControls, FlowControlsView, SpawnerFlowControlPolicy};
use crate::message::{FlowControlId, MessageView, RelayMessage};
use crate::nodes::registry::{
    allowlist_view, has_channel, without_channel, Identifier, SecureChannel, SecureChannelInfo,
    SecureChannelInfoView, SecureChannelRegistry,
};
use crate::relay::lifecycle::{ActorKind, RelayState};
use crate::relay::mailbox::{Mailbox, MAILBOX_CAPACITY};
use crate::relay::processor_relay::ProcessorRelay;
use crate::relay::shutdown::{ShutdownHandle, ShutdownListener};
use crate::relay::worker_relay::WorkerRelay;
use crate::router::{receive_spec, route_spec, Mailboxes, RouteOutcome, Router, RouterError};
use crate::table::{Key, Table};
use tokio::sync::oneshot::Receiver;
use vstd::prelude::*;

verus! {

/// A node as plain values.
pub struct NodeView {
    /// The mailbox of each actor that lives on the node.
    pub mailboxes: Mailboxes,
    /// The admission tables.
    pub flows: FlowControlsView,
    /// The live secure channels.
    pub secure_channels: Seq<SecureChannelInfoView>,
    /// The addresses of the relays that can still be asked to stop.
    pub stoppable: Set<AddressView>,
}

/// The state that the relays of one node share.
#[derive(Debug)]
pub struct Node {
    router: Router,
    flow_controls: FlowControls,
    secure_channels: SecureChannelRegistry,
    handles: Table<Address, ShutdownHandle>,
}

impl View for Node {
    type V = NodeView;

    closed spec fn view(&self) -> NodeView {
        NodeView {
            mailboxes: self.router@,
            flows: self.flow_controls@,
            secure_channels: self.secure_channels@,
            stoppable: self.handles@.dom(),
        }
    }
}

impl Node {
    /// Every table holds each of its keys once, the mailboxes are within
    /// their capacity, each handle stops the relay under whose address it is
    /// kept, and only relays of actors that live on the node can be asked to
    /// stop.
    pub closed spec fn wf(&self) -> bool {
        &&& self.router.wf()
        &&& self.flow_controls.wf()
        &&& self.secure_channels.wf()
        &&& self.handles.wf()
        &&& forall|a: AddressView| #[trigger]
            self.handles@.contains_key(a) ==> self.handles@[a].relay() == a
                && self.router@.contains_key(a)
    }

    /// What the invariant says of the view: who can be asked to stop lives
    /// on the node, no mailbox is over its capacity, and no two secure
    /// channels share a local address.
    pub proof fn view_is_sound(&self)
        requires
            self.wf(),
        ensures
            self@.stoppable.subset_of(self@.mailboxes.dom()),
            forall|a: AddressView| #[trigger]
                self@.mailboxes.contains_key(a) ==> self@.mailboxes[a].len() <= MAILBOX_CAPACITY,
            crate::nodes::registry::distinct_channels(self@.secure_channels),
    {
        self.router.mailboxes_are_bounded();
    }

    /// A node on which nothing lives yet.
    pub fn new() -> (res: Self)
        ensures
            res.wf(),
            res@.mailboxes == Mailboxes::empty(),
            res@.flows.spawners == Map::<AddressView, Seq<char>>::empty(),
            res@.flows.consumers == Map::<
                (AddressView, Seq<char>),
                SpawnerFlowControlPolicy,
            >::empty(),
            res@.secure_channels == Seq::<SecureChannelInfoView>::empty(),
            res@.stoppable == Set::<AddressView>::empty(),
    {
        let res = Node {
            router: Router::new(),
            flow_controls: FlowControls::new(),
            secure_channels: SecureChannelRegistry::default(),
            handles: Table::new(),
        };
        res
    }

    /// The router of the node.
    pub fn router(&self) -> (res: &Router)
        ensures
            res@ == self@.mailboxes,
            self.wf() ==> res.wf(),
    {
        &self.router
    }

    /// The admission tables of the node.
    pub fn flow_controls(&self) -> (res: &FlowControls)
        ensures
            res@ == self@.flows,
            self.wf() ==> res.wf(),
    {
        &self.flow_controls
    }

    /// The live secure channels of the node.
    pub fn secure_channels(&self) -> (res: &SecureChannelRegistry)
        ensures
            res@ == self@.secure_channels,
            self.wf() ==> res.wf(),
    {
        &self.secure_channels
    }

    /// Makes room for an actor at `address`: an empty mailbox under that
    /// address in the router, and a fresh rendezvous, of which the node
    /// keeps the handle and gives out the listener for the actor's relay.
    /// Where an actor lives at the address already, nothing changes.
    pub fn register(&mut self, address: Address) -> (res: Result<ShutdownListener, RouterError>)
        requires
            old(self).wf(),
        ensures
            final(self).wf(),
            match res {
                Ok(listener) => {
                    &&& !old(self)@.mailboxes.contains_key(address@)
                    &&& listener.relay() == address@
                    &&& final(self)@ == (NodeView {
                        mailboxes: old(self)@.mailboxes.insert(address@, Seq::empty()),
                        stoppable: old(self)@.stoppable.insert(address@),
                        ..old(self)@
                    })
                },
                Err(RouterError::DuplicateAddress) => {
                    &&& old(self)@.mailboxes.contains_key(address@)
                    &&& final(self)@ == old(self)@
                },
            },
    {
        let key = address.duplicate();
        let (handle, listener) = ShutdownHandle::create(address.duplicate());
        match self.router.register(address, Mailbox::new()) {
            Ok(()) => {
                self.handles.insert(key, handle);
                Ok(listener)
            },
            Err(e) => Err(e),
        }
    }

    /// Spawns a self-driven actor at `address` and hands out its relay, for
    /// a driver to run. Where an actor lives at the address already, nothing
    /// changes.
    pub fn spawn_processor<P>(&mut self, processor: P, address: Address) -> (res: Result<
        ProcessorRelay<P>,
        RouterError,
    >)
        requires
            old(self).wf(),
        ensures
            final(self).wf(),
            match res {
                Ok(relay) => {
                    &&& !old(self)@.mailboxes.contains_key(address@)
                    &&& relay.wf()
                    &&& relay@ == RelayState::initial(ActorKind::Processor)
                    &&& relay.relay() == address@
                    &&& relay.actor() == processor
                    &&& final(self)@ == (NodeView {
                        mailboxes: old(self)@.mailboxes.insert(address@, Seq::empty()),
                        stoppable: old(self)@.stoppable.insert(address@),
                        ..old(self)@
                    })
                },
                Err(RouterError::DuplicateAddress) => {
                    &&& old(self)@.mailboxes.contains_key(address@)
                    &&& final(self)@ == old(self)@
                },
            },
    {
        match self.register(address) {
            Ok(listener) => Ok(ProcessorRelay::new(processor, listener)),
            Err(e) => Err(e),
        }
    }

    /// Spawns a message-driven actor at `address` and hands out its relay,
    /// for a driver to run. Where an actor lives at the address already,
    /// nothing changes.
    pub fn spawn_worker<W>(&mut self, worker: W, address: Address) -> (res: Result<
        WorkerRelay<W>,
        RouterError,
    >)
        requires
            old(self).wf(),
        ensures
            final(self).wf(),
            match res {
                Ok(relay) => {
                    &&& !old(self)@.mailboxes.contains_key(address@)
                    &&& relay.wf()
                    &&& relay@ == RelayState::initial(ActorKind::Worker)
                    &&& relay.relay() == address@
                    &&& relay.actor() == worker
                    &&& final(self)@ == (NodeView {
                        mailboxes: old(self)@.mailboxes.insert(address@, Seq::empty()),
                        stoppable: old(self)@.stoppable.insert(address@),
                        ..old(self)@
                    })
                },
                Err(RouterError::DuplicateAddress) => {
                    &&& old(self)@.mailboxes.contains_key(address@)
                    &&& final(self)@ == old(self)@
                },
            },
    {
        match self.register(address) {
            Ok(listener) => Ok(WorkerRelay::new(worker, listener)),
            Err(e) => Err(e),
        }
    }

    /// Asks the relay at `address` to stop. The handle is used up by it:
    /// nothing is asked where no relay lives at the address, and nothing
    /// where it was asked before. Where the relay was asked, what comes back
    /// says whether the request could be handed over, and gives the end on
    /// which the acknowledgment will arrive. The address stays in the router
    /// until whoever asked takes it out, once the relay has acknowledged.
    pub fn request_shutdown(&mut self, address: &Address) -> (res: Option<(bool, Receiver<()>)>)
        requires
            old(self).wf(),
        ensures
            final(self).wf(),
            final(self)@ == (NodeView {
                stoppable: old(self)@.stoppable.remove(address@),
                ..old(self)@
            }),
            res is Some <==> old(self)@.stoppable.contains(address@),
    {
        let handle = self.handles.remove(address);
        match handle {
            Some(handle) => Some(handle.signal()),
            None => None,
        }
    }

    /// Takes `address` out of the router, with its mailbox and its handle.
    /// This is for a relay that has stopped by itself, and for whoever
    /// stopped a relay and has its acknowledgment. An address that is not
    /// there is no error: both may come.
    pub fn deregister(&mut self, address: &Address)
        requires
            old(self).wf(),
        ensures
            final(self).wf(),
            final(self)@ == (NodeView {
                mailboxes: old(self)@.mailboxes.remove(address@),
                stoppable: old(self)@.stoppable.remove(address@),
                ..old(self)@
            }),
    {
        self.router.deregister(address);
        self.handles.remove(address);
    }

    /// Routes `message` one hop further, through admission control, as
    /// [`route_spec`] says.
    pub fn route(&mut self, message: RelayMessage) -> (outcome: RouteOutcome)
        requires
            old(self).wf(),
        ensures
            final(self).wf(),
            (final(self)@.mailboxes, final(self)@.flows, outcome@) == route_spec(
                old(self)@.mailboxes,
                old(self)@.flows,
                message@,
            ),
            final(self)@.secure_channels == old(self)@.secure_channels,
            final(self)@.stoppable == old(self)@.stoppable,
    {
        proof {
            crate::router::routing_keeps_what_waits(self@.mailboxes, self@.flows, message@);
        }
        let outcome = self.router.route(&mut self.flow_controls, message);
        outcome
    }

    /// Takes out the message that has waited longest for the actor at
    /// `address`, if one waits.
    pub fn receive(&mut self, address: &Address) -> (res: Option<RelayMessage>)
        requires
            old(self).wf(),
        ensures
            final(self).wf(),
            final(self)@ == (NodeView {
                mailboxes: receive_spec(old(self)@.mailboxes, address@),
                ..old(self)@
            }),
            match res {
                Some(m) => {
                    &&& old(self)@.mailboxes.contains_key(address@)
                    &&& old(self)@.mailboxes[address@].len() > 0
                    &&& m@ == old(self)@.mailboxes[address@][0]
                },
                None => old(self)@.mailboxes.contains_key(address@) ==> old(
                    self,
                )@.mailboxes[address@].len() == 0,
            },
    {
        let res = self.router.receive(address);
        res
    }

    /// Records that the spawner at `address` tags its traffic with `flow`.
    pub fn add_spawner(&mut self, address: Address, flow: FlowControlId)
        requires
            old(self).wf(),
        ensures
            final(self).wf(),
            final(self)@ == (NodeView {
                flows: FlowControlsView {
                    spawners: old(self)@.flows.spawners.insert(address@, flow@),
                    ..old(self)@.flows
                },
                ..old(self)@
            }),
    {
        self.flow_controls.add_spawner(address, flow);
    }

    /// Authorizes the actor at `consumer_address` to receive what comes in
    /// through `flow_id`, as far as `policy` goes.
    pub fn add_consumer_for_spawner(
        &mut self,
        consumer_address: Address,
        flow_id: &FlowControlId,
        policy: SpawnerFlowControlPolicy,
    )
        requires
            old(self).wf(),
        ensures
            final(self).wf(),
            final(self)@ == (NodeView {
                flows: FlowControlsView {
                    consumers: old(self)@.flows.consumers.insert(
                        (consumer_address@, flow_id@),
                        policy,
                    ),
                    ..old(self)@.flows
                },
                ..old(self)@
            }),
    {
        self.flow_controls.add_consumer_for_spawner(consumer_address, flow_id, policy);
    }

    /// Enters an established secure channel under its local address.
    pub fn register_secure_channel(
        &mut self,
        route: Route,
        channel_handle: SecureChannel,
        allowlist: Option<Vec<Identifier>>,
    )
        requires
            old(self).wf(),
        ensures
            final(self).wf(),
            final(self)@ == (NodeView {
                secure_channels: without_channel(
                    old(self)@.secure_channels,
                    channel_handle@.encryptor_address,
                ).push(
                    SecureChannelInfoView {
                        route: route@,
                        sc: channel_handle@,
                        authorized_identifiers: allowlist_view(allowlist),
                    },
                ),
                ..old(self)@
            }),
    {
        self.secure_channels.insert(route, channel_handle, allowlist);
    }

    /// Takes out the secure channel with the local address `address`. Where
    /// there is none, nothing changes.
    pub fn remove_secure_channel(&mut self, address: &Address)
        requires
            old(self).wf(),
        ensures
            final(self).wf(),
            final(self)@ == (NodeView {
                secure_channels: without_channel(old(self)@.secure_channels, address@),
                ..old(self)@
            }),
            !has_channel(final(self)@.secure_channels, address@),
            !has_channel(old(self)@.secure_channels, address@) ==> final(self)@ == old(self)@,
    {
        self.secure_channels.remove_by_addr(address);
    }

    /// The secure channel with the local address `address`, if it is live.
    pub fn secure_channel(&self, address: &Address) -> (res: Option<&SecureChannelInfo>)
        ensures
            match res {
                Some(info) => self@.secure_channels.contains(info@) && info@.sc.encryptor_address
                    == address@,
                None => !has_channel(self@.secure_channels, address@),
            },
    {
        self.secure_channels.get_by_addr(address)
    }
}

} // verus!
