//! The address table of a node, and delivery along routes.
//!
//! The router knows the mailbox of every actor that lives on the node. A
//! message is resolved hop by hop: its next hop is taken off the onward
//! route and, where that hop is an actor of this node, the message goes into
//! the actor's mailbox; where it lies behind a transport, the message is
//! handed out for that transport to carry. Whatever came in from outside
//! passes admission control first.

use crate::address::{Address, AddressView, Route};
use crate::flow_control::{FlowControls, FlowControlsView};
use crate::message::{MessageView, RelayMessage};
use crate::relay::mailbox::{after_receive, after_send, has_room, Mailbox, MAILBOX_CAPACITY};
use crate::table::{Key, Table};
use vstd::prelude::*;

verus! {

/// Why the router refused to register an address.
#[derive(Clone, Copy, Debug, PartialEq, Eq, Structural)]
pub enum RouterError {
    /// An actor already lives at the address.
    DuplicateAddress,
}

/// Why a message could not be delivered.
#[derive(Clone, Copy, Debug, PartialEq, Eq, Structural)]
pub enum UndeliverableReason {
    /// The onward route has no hop left.
    NoRoute,
    /// The next hop is not authorized for the flow of the message.
    Denied,
    /// No actor lives at the next hop.
    UnknownAddress,
}

/// What became of a message, as plain values.
pub enum OutcomeView {
    /// It waits in the mailbox of the actor at this address.
    Delivered(AddressView),
    /// Its next hop lies behind a transport, which is to carry the message
    /// as it stands here.
    Forward(AddressView, MessageView),
    /// The mailbox of its next hop is full. The message comes back as it
    /// was, to be offered again once there is room.
    Busy(MessageView),
    /// It was dropped. A notice of the failure can be sent along the return
    /// route given here, if that has a hop.
    Undeliverable(UndeliverableReason, Seq<AddressView>),
}

/// What became of a message.
#[derive(Debug, PartialEq, Eq)]
pub enum RouteOutcome {
    /// It waits in the mailbox of the actor at this address.
    Delivered(Address),
    /// Its next hop lies behind a transport, which is to carry the message
    /// as it stands here.
    Forward(Address, RelayMessage),
    /// The mailbox of its next hop is full. The message comes back as it
    /// was, to be offered again once there is room.
    Busy(RelayMessage),
    /// It was dropped. A notice of the failure can be sent along the return
    /// route given here, if that has a hop.
    Undeliverable(UndeliverableReason, Route),
}

impl View for RouteOutcome {
    type V = OutcomeView;

    open spec fn view(&self) -> OutcomeView {
        match self {
            RouteOutcome::Delivered(a) => OutcomeView::Delivered(a@),
            RouteOutcome::Forward(a, m) => OutcomeView::Forward(a@, m@),
            RouteOutcome::Busy(m) => OutcomeView::Busy(m@),
            RouteOutcome::Undeliverable(reason, back) => OutcomeView::Undeliverable(*reason, back@),
        }
    }
}

impl RouteOutcome {
    /// Whether the message is on its way: in a mailbox, or with a transport.
    pub fn is_accepted(&self) -> (res: bool)
        ensures
            res == (self@ is Delivered || self@ is Forward),
    {
        match self {
            RouteOutcome::Delivered(_) => true,
            RouteOutcome::Forward(_, _) => true,
            _ => false,
        }
    }

    /// Where a notice of the failure can be sent: the return route of a
    /// dropped message, if it has a hop.
    pub fn failure_return_route(&self) -> (res: Option<&Route>)
        ensures
            match res {
                Some(back) => self@ matches OutcomeView::Undeliverable(_, r) && r == back@
                    && back@.len() > 0,
                None => self@ matches OutcomeView::Undeliverable(_, r) ==> r.len() == 0,
            },
    {
        match self {
            RouteOutcome::Undeliverable(_, back) => if back.is_empty() {
                None
            } else {
                Some(back)
            },
            _ => None,
        }
    }
}

/// The mailboxes of a node, each under the address of its actor.
pub type Mailboxes = Map<AddressView, Seq<MessageView>>;

/// Routing as a function: the mailboxes and admission tables after
/// `message` was routed, and what became of it.
///
/// A message without a hop left is dropped. So is one whose next hop is not
/// authorized for its flow: it is never queued and never handed on. A hop
/// behind a transport gets the message with that hop taken off its route.
/// A hop on this node gets it into its mailbox, unless no actor lives there
/// (dropped) or the mailbox is full (given back). Only a message that went
/// into a mailbox or to a transport uses up an authorization for a single
/// message.
pub open spec fn route_spec(mailboxes: Mailboxes, flows: FlowControlsView, message: MessageView) -> (
    Mailboxes,
    FlowControlsView,
    OutcomeView,
) {
    if message.onward_route.len() == 0 {
        (
            mailboxes,
            flows,
            OutcomeView::Undeliverable(UndeliverableReason::NoRoute, message.return_route),
        )
    } else {
        let hop = message.onward_route[0];
        if !flows.authorizes(hop, message.flow) {
            (
                mailboxes,
                flows,
                OutcomeView::Undeliverable(UndeliverableReason::Denied, message.return_route),
            )
        } else if !hop.is_local() {
            (
                mailboxes,
                flows.after_admission(hop, message.flow),
                OutcomeView::Forward(hop, message.stepped()),
            )
        } else if !mailboxes.contains_key(hop) {
            (
                mailboxes,
                flows,
                OutcomeView::Undeliverable(
                    UndeliverableReason::UnknownAddress,
                    message.return_route,
                ),
            )
        } else if !has_room(mailboxes[hop]) {
            (mailboxes, flows, OutcomeView::Busy(message))
        } else {
            (
                mailboxes.insert(hop, after_send(mailboxes[hop], message.stepped())),
                flows.after_admission(hop, message.flow),
                OutcomeView::Delivered(hop),
            )
        }
    }
}

/// The mailboxes after the actor at `address` asked for its next message:
/// the one that has waited longest for it is gone, and nothing else changes.
pub open spec fn receive_spec(mailboxes: Mailboxes, address: AddressView) -> Mailboxes {
    if mailboxes.contains_key(address) {
        mailboxes.insert(address, after_receive(mailboxes[address]))
    } else {
        mailboxes
    }
}

/// The address table of a node: the mailbox of each actor that lives on it.
#[derive(Debug)]
pub struct Router {
    mailboxes: Table<Address, Mailbox>,
}

impl View for Router {
    type V = Mailboxes;

    closed spec fn view(&self) -> Mailboxes {
        self.mailboxes@.map_values(|m: Mailbox| m@)
    }
}

impl Router {
    /// No address occurs twice, and no mailbox holds more than it may.
    pub closed spec fn wf(&self) -> bool {
        &&& self.mailboxes.wf()
        &&& forall|a: AddressView| #[trigger]
            self.mailboxes@.contains_key(a) ==> self.mailboxes@[a].wf()
    }

    /// No mailbox of the table holds more than its capacity.
    pub proof fn mailboxes_are_bounded(&self)
        requires
            self.wf(),
        ensures
            forall|a: AddressView| #[trigger]
                self@.contains_key(a) ==> self@[a].len() <= MAILBOX_CAPACITY,
    {
    }

    /// A router that knows no address.
    pub fn new() -> (res: Self)
        ensures
            res.wf(),
            res@ == Mailboxes::empty(),
    {
        let res = Router { mailboxes: Table::new() };
        res
    }

    /// Whether an actor lives at `address`.
    pub fn is_registered(&self, address: &Address) -> (res: bool)
        ensures
            res == self@.contains_key(address@),
    {
        self.mailboxes.contains_key(address)
    }

    /// How many messages wait for the actor at `address`, if one lives
    /// there.
    pub fn waiting(&self, address: &Address) -> (res: Option<usize>)
        requires
            self.wf(),
        ensures
            match res {
                Some(n) => self@.contains_key(address@) && n == self@[address@].len(),
                None => !self@.contains_key(address@),
            },
    {
        match self.mailboxes.get(address) {
            Some(mailbox) => Some(mailbox.len()),
            None => None,
        }
    }

    /// Enters `address` with the mailbox of its actor. An address at which
    /// an actor lives already is refused, and what is registered stays as it
    /// is.
    pub fn register(&mut self, address: Address, mailbox: Mailbox) -> (res: Result<
        (),
        RouterError,
    >)
        requires
            old(self).wf(),
            mailbox.wf(),
        ensures
            final(self).wf(),
            match res {
                Ok(()) => {
                    &&& !old(self)@.contains_key(address@)
                    &&& final(self)@ == old(self)@.insert(address@, mailbox@)
                },
                Err(RouterError::DuplicateAddress) => {
                    &&& old(self)@.contains_key(address@)
                    &&& final(self)@ == old(self)@
                },
            },
    {
        if self.mailboxes.contains_key(&address) {
            Err(RouterError::DuplicateAddress)
        } else {
            self.mailboxes.insert(address, mailbox);
            Ok(())
        }
    }

    /// Takes `address` out of the table, with whatever still waits in its
    /// mailbox. An address that is not in the table is no error: the relay
    /// and whoever stopped it may both come to take it out.
    pub fn deregister(&mut self, address: &Address)
        requires
            old(self).wf(),
        ensures
            final(self).wf(),
            final(self)@ == old(self)@.remove(address@),
    {
        self.mailboxes.remove(address);
    }

    /// Takes out the message that has waited longest for the actor at
    /// `address`. There is none where no actor lives at the address, or
    /// where its mailbox is empty.
    pub fn receive(&mut self, address: &Address) -> (res: Option<RelayMessage>)
        requires
            old(self).wf(),
        ensures
            final(self).wf(),
            final(self)@ == receive_spec(old(self)@, address@),
            match res {
                Some(m) => {
                    &&& old(self)@.contains_key(address@)
                    &&& old(self)@[address@].len() > 0
                    &&& m@ == old(self)@[address@][0]
                },
                None => old(self)@.contains_key(address@) ==> old(self)@[address@].len() == 0,
            },
    {
        match self.mailboxes.remove(address) {
            Some(mailbox) => {
                let mut mailbox = mailbox;
                let message = mailbox.receive();
                self.mailboxes.insert(address.duplicate(), mailbox);
                message
            },
            None => None,
        }
    }

    /// Routes `message` one hop further, as [`route_spec`] says.
    pub fn route(&mut self, flows: &mut FlowControls, message: RelayMessage) -> (outcome:
        RouteOutcome)
        requires
            old(self).wf(),
            old(flows).wf(),
        ensures
            final(self).wf(),
            final(flows).wf(),
            (final(self)@, final(flows)@, outcome@) == route_spec(
                old(self)@,
                old(flows)@,
                message@,
            ),
    {
        let (hop, rest) = match message.step() {
            Ok(stepped) => stepped,
            Err(same) => {
                return RouteOutcome::Undeliverable(
                    UndeliverableReason::NoRoute,
                    same.return_route().clone(),
                );
            },
        };
        if !flows.is_authorized(&hop, rest.flow()) {
            return RouteOutcome::Undeliverable(
                UndeliverableReason::Denied,
                rest.return_route().clone(),
            );
        }
        if !hop.is_local() {
            flows.let_through(&hop, rest.flow());
            return RouteOutcome::Forward(hop, rest);
        }
        let flow = match rest.flow() {
            Some(flow) => Some(flow.clone()),
            None => None,
        };
        match self.mailboxes.remove(&hop) {
            Some(mailbox) => {
                let mut mailbox = mailbox;
                match mailbox.try_send(rest) {
                    Ok(()) => {
                        self.mailboxes.insert(hop.duplicate(), mailbox);
                        flows.let_through(&hop, flow.as_ref());
                        RouteOutcome::Delivered(hop)
                    },
                    Err(rest) => {
                        self.mailboxes.insert(hop.duplicate(), mailbox);
                        let back = rest.with_next_hop(hop);
                        assert(back@.onward_route =~= message@.onward_route);
                        RouteOutcome::Busy(back)
                    },
                }
            },
            None => RouteOutcome::Undeliverable(
                UndeliverableReason::UnknownAddress,
                rest.return_route().clone(),
            ),
        }
    }
}

/// What came in through a flow reaches only addresses that are authorized
/// for that flow: towards any other address it is dropped, whether or not an
/// actor lives there. It is neither queued nor handed to a transport, and
/// no mailbox and no authorization changes.
pub proof fn unauthorized_message_is_dropped(
    mailboxes: Mailboxes,
    flows: FlowControlsView,
    message: MessageView,
)
    requires
        message.onward_route.len() > 0,
        message.flow matches Some(f) && !flows.consumers.contains_key((message.onward_route[0], f)),
    ensures
        route_spec(mailboxes, flows, message) == (
            mailboxes,
            flows,
            OutcomeView::Undeliverable(UndeliverableReason::Denied, message.return_route),
        ),
{
}

/// Under an authorization for a single message, the first message of the
/// flow that is delivered or forwarded to the address is the only one: any
/// later message of that flow to that address is dropped, and nothing
/// changes by it.
pub proof fn single_message_is_delivered_once(
    mailboxes: Mailboxes,
    flows: FlowControlsView,
    first: MessageView,
    second: MessageView,
)
    requires
        first.onward_route.len() > 0,
        second.onward_route.len() > 0,
        second.onward_route[0] == first.onward_route[0],
        first.flow is Some,
        second.flow == first.flow,
        flows.consumers.contains_key((first.onward_route[0], first.flow->0)),
        flows.consumers[(first.onward_route[0], first.flow->0)]
            == crate::flow_control::SpawnerFlowControlPolicy::AllowSingleMessage,
        route_spec(mailboxes, flows, first).2 is Delivered || route_spec(
            mailboxes,
            flows,
            first,
        ).2 is Forward,
    ensures
        ({
            let after = route_spec(mailboxes, flows, first);
            route_spec(after.0, after.1, second) == (
                after.0,
                after.1,
                OutcomeView::Undeliverable(UndeliverableReason::Denied, second.return_route),
            )
        }),
{
}

/// Routing keeps every mailbox within its capacity and never loses a
/// message that waits: the mailboxes change by at most one message, added
/// behind those that wait at the next hop.
pub proof fn routing_keeps_what_waits(
    mailboxes: Mailboxes,
    flows: FlowControlsView,
    message: MessageView,
)
    ensures
        ({
            let after = route_spec(mailboxes, flows, message);
            &&& after.0.dom() == mailboxes.dom()
            &&& forall|a: AddressView| #[trigger]
                mailboxes.contains_key(a) ==> mailboxes[a].is_prefix_of(after.0[a])
                    && after.0[a].len() <= mailboxes[a].len() + 1
            &&& after.2 is Delivered <==> after.0 != mailboxes
        }),
{
    let after = route_spec(mailboxes, flows, message);
    if after.2 is Delivered {
        let hop = message.onward_route[0];
        assert(after.0[hop].len() != mailboxes[hop].len());
    }
    assert(after.0.dom() =~= mailboxes.dom());
}

/// What is done with the mailboxes of a node.
pub enum RoutingOp {
    /// A message is routed.
    Route(MessageView),
    /// The actor at an address asks for its next message.
    Receive(AddressView),
}

/// A node followed over time from the point of view of one actor: the
/// tables, what was delivered to the actor's address, and what the actor
/// received, each in the order in which it happened.
pub struct RoutingTrace {
    pub mailboxes: Mailboxes,
    pub flows: FlowControlsView,
    pub delivered: Seq<MessageView>,
    pub received: Seq<MessageView>,
}

impl RoutingTrace {
    /// The trace of the actor at `address` that starts with these tables.
    pub open spec fn start(mailboxes: Mailboxes, flows: FlowControlsView) -> RoutingTrace {
        RoutingTrace { mailboxes, flows, delivered: Seq::empty(), received: Seq::empty() }
    }

    /// One operation, as [`route_spec`] and [`receive_spec`] say, noted
    /// where it concerns the actor at `address`.
    pub open spec fn apply(self, address: AddressView, op: RoutingOp) -> RoutingTrace {
        match op {
            RoutingOp::Route(m) => {
                let after = route_spec(self.mailboxes, self.flows, m);
                RoutingTrace {
                    mailboxes: after.0,
                    flows: after.1,
                    delivered: if after.2 == OutcomeView::Delivered(address) {
                        self.delivered.push(m.stepped())
                    } else {
                        self.delivered
                    },
                    received: self.received,
                }
            },
            RoutingOp::Receive(a) => RoutingTrace {
                mailboxes: receive_spec(self.mailboxes, a),
                flows: self.flows,
                delivered: self.delivered,
                received: if a == address && self.mailboxes.contains_key(a)
                    && self.mailboxes[a].len() > 0 {
                    self.received.push(self.mailboxes[a][0])
                } else {
                    self.received
                },
            },
        }
    }

    /// The operations of `ops`, one after the other.
    pub open spec fn run(self, address: AddressView, ops: Seq<RoutingOp>) -> RoutingTrace
        decreases ops.len(),
    {
        if ops.len() == 0 {
            self
        } else {
            self.run(address, ops.drop_last()).apply(address, ops.last())
        }
    }
}

/// An actor receives its messages in the order in which they were delivered
/// to its address. Whatever is routed on the node and whoever receives, in
/// whatever order: what waited for the actor at the start, followed by what
/// was delivered to it since, is what it has received followed by what
/// still waits. Nothing is lost, nothing comes twice, nothing overtakes,
/// and no message for another address gets into its mailbox.
pub proof fn messages_arrive_in_delivery_order(
    mailboxes: Mailboxes,
    flows: FlowControlsView,
    address: AddressView,
    ops: Seq<RoutingOp>,
)
    requires
        mailboxes.contains_key(address),
    ensures
        ({
            let t = RoutingTrace::start(mailboxes, flows).run(address, ops);
            &&& t.mailboxes.contains_key(address)
            &&& mailboxes[address] + t.delivered == t.received + t.mailboxes[address]
        }),
    decreases ops.len(),
{
    let start = RoutingTrace::start(mailboxes, flows);
    let t = start.run(address, ops);
    if ops.len() == 0 {
        assert(mailboxes[address] + t.delivered =~= t.received + t.mailboxes[address]);
    } else {
        messages_arrive_in_delivery_order(mailboxes, flows, address, ops.drop_last());
        let before = start.run(address, ops.drop_last());
        assert(t == before.apply(address, ops.last()));
        let waiting = before.mailboxes[address];
        match ops.last() {
            RoutingOp::Route(m) => {
                let after = route_spec(before.mailboxes, before.flows, m);
                if after.2 == OutcomeView::Delivered(address) {
                    assert(m.onward_route[0] == address);
                    let x = m.stepped();
                    assert(t.mailboxes[address] == waiting.push(x));
                    assert(t.delivered == before.delivered.push(x));
                    assert(mailboxes[address] + before.delivered.push(x) =~= (mailboxes[address]
                        + before.delivered).push(x));
                    assert((before.received + waiting).push(x) =~= before.received + waiting.push(
                        x,
                    ));
                } else {
                    assert(t.mailboxes[address] == waiting);
                }
            },
            RoutingOp::Receive(a) => {
                if a == address && waiting.len() > 0 {
                    assert(t.mailboxes[address] == waiting.skip(1));
                    assert(t.received == before.received.push(waiting[0]));
                    assert(waiting =~= seq![waiting[0]] + waiting.skip(1));
                    assert(before.received + waiting =~= before.received.push(waiting[0])
                        + waiting.skip(1));
                } else {
                    assert(t.mailboxes[address] == waiting);
                }
            },
        }
        assert(mailboxes[address] + t.delivered =~= t.received + t.mailboxes[address]);
    }
}

} // verus!
