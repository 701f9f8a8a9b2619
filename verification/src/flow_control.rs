//! Admission control: which addresses may receive what came in through
//! which spawner.
//!
//! A spawner, such as a listener, accepts connections from outside and tags
//! everything that arrives over them with its flow. An address receives a
//! message of a flow only if it was authorized for that flow. This is the
//! trust boundary of a node: whoever opens a connection reaches the actors
//! that were allow-listed for that spawner, and no others.

use crate::address::{Address, AddressView};
use crate::message::FlowControlId;
use crate::table::{Key, Table};
use vstd::prelude::*;

verus! {

/// How much an authorization is good for.
#[derive(Clone, Copy, Debug, PartialEq, Eq, Structural)]
pub enum SpawnerFlowControlPolicy {
    /// One message, after which the authorization is used up.
    AllowSingleMessage,
    /// Any number of messages, for as long as the flow lives.
    AllowMultipleMessages,
}

/// An address together with a flow it may receive from.
#[derive(Debug)]
pub struct Consumer {
    address: Address,
    flow: FlowControlId,
}

impl View for Consumer {
    type V = (AddressView, Seq<char>);

    closed spec fn view(&self) -> (AddressView, Seq<char>) {
        (self.address@, self.flow@)
    }
}

impl Key for Consumer {
    fn same(&self, other: &Self) -> (res: bool) {
        self.address.equals(&other.address) && self.flow.equals(&other.flow)
    }

    fn duplicate(&self) -> (res: Self) {
        Consumer { address: self.address.clone(), flow: self.flow.clone() }
    }
}

impl Consumer {
    /// The pair of `address` and `flow`.
    pub fn new(address: Address, flow: FlowControlId) -> (res: Self)
        ensures
            res@ == (address@, flow@),
    {
        Consumer { address, flow }
    }
}

/// The admission tables as plain values.
pub struct FlowControlsView {
    /// The flow of each spawner.
    pub spawners: Map<AddressView, Seq<char>>,
    /// What each address may still receive from each flow.
    pub consumers: Map<(AddressView, Seq<char>), SpawnerFlowControlPolicy>,
}

impl FlowControlsView {
    /// Whether a message of `flow` may go to `destination`. A message
    /// without a flow started on this node and may go anywhere.
    pub open spec fn authorizes(self, destination: AddressView, flow: Option<Seq<char>>) -> bool {
        match flow {
            Some(f) => self.consumers.contains_key((destination, f)),
            None => true,
        }
    }

    /// The tables after a message of `flow` was let through to
    /// `destination`: an authorization for a single message is used up.
    pub open spec fn after_admission(
        self,
        destination: AddressView,
        flow: Option<Seq<char>>,
    ) -> FlowControlsView {
        match flow {
            Some(f) => if self.consumers.contains_key((destination, f)) && self.consumers[(
                destination,
                f,
            )] == SpawnerFlowControlPolicy::AllowSingleMessage {
                FlowControlsView { consumers: self.consumers.remove((destination, f)), ..self }
            } else {
                self
            },
            None => self,
        }
    }
}

/// The view of an optional flow that is borrowed.
pub open spec fn flow_ref_view(flow: Option<&FlowControlId>) -> Option<Seq<char>> {
    match flow {
        Some(f) => Some(f@),
        None => None,
    }
}

/// The admission tables of a node.
#[derive(Debug)]
pub struct FlowControls {
    spawners: Table<Address, FlowControlId>,
    consumers: Table<Consumer, SpawnerFlowControlPolicy>,
}

impl View for FlowControls {
    type V = FlowControlsView;

    closed spec fn view(&self) -> FlowControlsView {
        FlowControlsView {
            spawners: self.spawners@.map_values(|f: FlowControlId| f@),
            consumers: self.consumers@,
        }
    }
}

impl FlowControls {
    /// The tables hold each spawner and each pair once.
    pub closed spec fn wf(&self) -> bool {
        self.spawners.wf() && self.consumers.wf()
    }

    /// Tables without spawners and without authorizations.
    pub fn new() -> (res: Self)
        ensures
            res.wf(),
            res@.spawners == Map::<AddressView, Seq<char>>::empty(),
            res@.consumers == Map::<(AddressView, Seq<char>), SpawnerFlowControlPolicy>::empty(),
    {
        let res = FlowControls { spawners: Table::new(), consumers: Table::new() };
        res
    }

    /// Records that the spawner at `address` tags its traffic with `flow`.
    pub fn add_spawner(&mut self, address: Address, flow: FlowControlId)
        requires
            old(self).wf(),
        ensures
            final(self).wf(),
            final(self)@.spawners == old(self)@.spawners.insert(address@, flow@),
            final(self)@.consumers == old(self)@.consumers,
    {
        self.spawners.insert(address, flow);
    }

    /// The flow of the spawner at `address`, if there is such a spawner.
    pub fn spawner_flow(&self, address: &Address) -> (res: Option<&FlowControlId>)
        requires
            self.wf(),
        ensures
            match res {
                Some(f) => self@.spawners.contains_key(address@) && f@ == self@.spawners[address@],
                None => !self@.spawners.contains_key(address@),
            },
    {
        self.spawners.get(address)
    }

    /// Authorizes `consumer` to receive what comes in through `flow`, as far
    /// as `policy` goes. An earlier authorization of the pair is replaced.
    pub fn add_consumer_for_spawner(
        &mut self,
        consumer: Address,
        flow: &FlowControlId,
        policy: SpawnerFlowControlPolicy,
    )
        requires
            old(self).wf(),
        ensures
            final(self).wf(),
            final(self)@.consumers == old(self)@.consumers.insert((consumer@, flow@), policy),
            final(self)@.spawners == old(self)@.spawners,
    {
        self.consumers.insert(Consumer::new(consumer, flow.clone()), policy);
    }

    /// Authorizes `consumer` to receive whatever comes in through `flow`.
    pub fn add_consumer(&mut self, consumer: Address, flow: &FlowControlId)
        requires
            old(self).wf(),
        ensures
            final(self).wf(),
            final(self)@.consumers == old(self)@.consumers.insert(
                (consumer@, flow@),
                SpawnerFlowControlPolicy::AllowMultipleMessages,
            ),
            final(self)@.spawners == old(self)@.spawners,
    {
        self.add_consumer_for_spawner(
            consumer,
            flow,
            SpawnerFlowControlPolicy::AllowMultipleMessages,
        );
    }

    /// What `consumer` may still receive from `flow`, if anything.
    pub fn policy(&self, consumer: &Address, flow: &FlowControlId) -> (res: Option<
        SpawnerFlowControlPolicy,
    >)
        requires
            self.wf(),
        ensures
            match res {
                Some(p) => self@.consumers.contains_key((consumer@, flow@)) && p
                    == self@.consumers[(consumer@, flow@)],
                None => !self@.consumers.contains_key((consumer@, flow@)),
            },
    {
        let key = Consumer::new(consumer.clone(), flow.clone());
        match self.consumers.get(&key) {
            Some(p) => Some(*p),
            None => None,
        }
    }

    /// Whether a message of `flow` may go to `destination`.
    pub fn is_authorized(&self, destination: &Address, flow: Option<&FlowControlId>) -> (res: bool)
        ensures
            res == self@.authorizes(destination@, flow_ref_view(flow)),
    {
        match flow {
            Some(f) => {
                let key = Consumer::new(destination.clone(), f.clone());
                self.consumers.contains_key(&key)
            },
            None => true,
        }
    }

    /// Lets a message of `flow` through to `destination` if it may go there,
    /// and says whether it did. Letting one through uses up an
    /// authorization for a single message; a refusal changes nothing.
    pub fn let_through(&mut self, destination: &Address, flow: Option<&FlowControlId>) -> (res: bool)
        requires
            old(self).wf(),
        ensures
            final(self).wf(),
            res == old(self)@.authorizes(destination@, flow_ref_view(flow)),
            final(self)@ == (if res {
                old(self)@.after_admission(destination@, flow_ref_view(flow))
            } else {
                old(self)@
            }),
    {
        match flow {
            Some(f) => {
                let key = Consumer::new(destination.clone(), f.clone());
                let policy = match self.consumers.get(&key) {
                    Some(p) => Some(*p),
                    None => None,
                };
                match policy {
                    Some(SpawnerFlowControlPolicy::AllowSingleMessage) => {
                        self.consumers.remove(&key);
                        true
                    },
                    Some(SpawnerFlowControlPolicy::AllowMultipleMessages) => true,
                    None => false,
                }
            },
            None => true,
        }
    }
}

/// Without an authorization for a flow, nothing of that flow may go to the
/// address.
pub proof fn unauthorized_flow_is_refused(
    flows: FlowControlsView,
    destination: AddressView,
    flow: Seq<char>,
)
    requires
        !flows.consumers.contains_key((destination, flow)),
    ensures
        !flows.authorizes(destination, Some(flow)),
{
}

/// An authorization for a single message lets exactly one message through:
/// the first is admitted, and after it the pair is refused. No other pair is
/// touched by it.
pub proof fn single_message_is_admitted_once(
    flows: FlowControlsView,
    destination: AddressView,
    flow: Seq<char>,
)
    requires
        flows.consumers.contains_key((destination, flow)),
        flows.consumers[(destination, flow)] == SpawnerFlowControlPolicy::AllowSingleMessage,
    ensures
        flows.authorizes(destination, Some(flow)),
        !flows.after_admission(destination, Some(flow)).authorizes(destination, Some(flow)),
        forall|d: AddressView, f: Seq<char>|
            (d, f) != (destination, flow) ==> flows.after_admission(
                destination,
                Some(flow),
            ).authorizes(d, Some(f)) == flows.authorizes(d, Some(f)),
{
}

/// An authorization for any number of messages is never used up.
pub proof fn multiple_messages_stay_admitted(
    flows: FlowControlsView,
    destination: AddressView,
    flow: Seq<char>,
)
    requires
        flows.consumers.contains_key((destination, flow)),
        flows.consumers[(destination, flow)] == SpawnerFlowControlPolicy::AllowMultipleMessages,
    ensures
        flows.authorizes(destination, Some(flow)),
        flows.after_admission(destination, Some(flow)) == flows,
{
}

} // verus!
