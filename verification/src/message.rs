//! The envelope in which a payload travels from actor to actor.

use crate::address::{Address, AddressView, Route};
use vstd::prelude::*;
use vstd::string::*;

verus! {

/// Tags the traffic that came in through one spawner, such as a listener:
/// every connection that the spawner accepts marks its messages with it.
#[derive(Debug, PartialEq, Eq)]
pub struct FlowControlId {
    id: String,
}

impl View for FlowControlId {
    type V = Seq<char>;

    closed spec fn view(&self) -> Seq<char> {
        self.id@
    }
}

impl Clone for FlowControlId {
    fn clone(&self) -> (res: Self)
        ensures
            res@ == self@,
    {
        FlowControlId { id: self.id.clone() }
    }
}

impl FlowControlId {
    /// The flow called `id`.
    pub fn new(id: &str) -> (res: Self)
        ensures
            res@ == id@,
    {
        FlowControlId { id: String::from_str(id) }
    }

    /// The name of the flow.
    pub fn as_str(&self) -> (res: &str)
        ensures
            res@ == self@,
    {
        self.id.as_str()
    }

    /// Whether the two flows are the same.
    pub fn equals(&self, other: &FlowControlId) -> (res: bool)
        ensures
            res == (self@ == other@),
    {
        self.id == other.id
    }
}

/// A message as plain values.
pub struct MessageView {
    pub payload: Seq<u8>,
    pub onward_route: Seq<AddressView>,
    pub return_route: Seq<AddressView>,
    pub flow: Option<Seq<char>>,
}

impl MessageView {
    /// The message as it arrives at its next hop: that hop is taken off the
    /// onward route, and nothing else changes.
    pub open spec fn stepped(self) -> MessageView {
        MessageView { onward_route: self.onward_route.skip(1), ..self }
    }

    /// The answer to this message: `payload` sent along the return route,
    /// with `from` as the place to answer to in turn. An answer starts on
    /// this node and so carries no flow.
    pub open spec fn reply(self, from: AddressView, payload: Seq<u8>) -> MessageView {
        MessageView {
            payload,
            onward_route: self.return_route,
            return_route: seq![from],
            flow: None,
        }
    }
}

/// The view of an optional flow.
pub open spec fn flow_view(flow: Option<FlowControlId>) -> Option<Seq<char>> {
    match flow {
        Some(f) => Some(f@),
        None => None,
    }
}

/// A payload with the route it has yet to travel, the route on which an
/// answer finds its way back, and the flow of the connection that let it in,
/// if it came from outside.
#[derive(Debug, PartialEq, Eq)]
pub struct RelayMessage {
    payload: Vec<u8>,
    onward_route: Route,
    return_route: Route,
    flow: Option<FlowControlId>,
}

impl View for RelayMessage {
    type V = MessageView;

    closed spec fn view(&self) -> MessageView {
        MessageView {
            payload: self.payload@,
            onward_route: self.onward_route@,
            return_route: self.return_route@,
            flow: flow_view(self.flow),
        }
    }
}

fn clone_bytes(bytes: &Vec<u8>) -> (res: Vec<u8>)
    ensures
        res@ == bytes@,
{
    let mut res: Vec<u8> = Vec::new();
    let mut i: usize = 0;
    while i < bytes.len()
        invariant
            i <= bytes.len(),
            res@ == bytes@.take(i as int),
        decreases bytes.len() - i,
    {
        res.push(bytes[i]);
        i = i + 1;
    }
    res
}

impl Clone for RelayMessage {
    fn clone(&self) -> (res: Self)
        ensures
            res@ == self@,
    {
        let flow = match &self.flow {
            Some(f) => Some(f.clone()),
            None => None,
        };
        RelayMessage {
            payload: clone_bytes(&self.payload),
            onward_route: self.onward_route.clone(),
            return_route: self.return_route.clone(),
            flow,
        }
    }
}

impl RelayMessage {
    /// A message that starts on this node: it carries no flow.
    pub fn new(payload: Vec<u8>, onward_route: Route, return_route: Route) -> (res: Self)
        ensures
            res@ == (MessageView {
                payload: payload@,
                onward_route: onward_route@,
                return_route: return_route@,
                flow: None,
            }),
    {
        RelayMessage { payload, onward_route, return_route, flow: None }
    }

    /// The same message, marked as having come in through `flow`.
    pub fn with_flow(self, flow: FlowControlId) -> (res: Self)
        ensures
            res@ == (MessageView { flow: Some(flow@), ..self@ }),
    {
        RelayMessage {
            payload: self.payload,
            onward_route: self.onward_route,
            return_route: self.return_route,
            flow: Some(flow),
        }
    }

    /// The payload.
    pub fn payload(&self) -> (res: &Vec<u8>)
        ensures
            res@ == self@.payload,
    {
        &self.payload
    }

    /// The hops that the message has yet to visit.
    pub fn onward_route(&self) -> (res: &Route)
        ensures
            res@ == self@.onward_route,
    {
        &self.onward_route
    }

    /// The route on which an answer travels back.
    pub fn return_route(&self) -> (res: &Route)
        ensures
            res@ == self@.return_route,
    {
        &self.return_route
    }

    /// The flow of the connection that let the message in, if any.
    pub fn flow(&self) -> (res: Option<&FlowControlId>)
        ensures
            match res {
                Some(f) => self@.flow == Some(f@),
                None => self@.flow is None,
            },
    {
        self.flow.as_ref()
    }

    /// Takes the next hop off the onward route and hands it out with the
    /// message as that hop sees it. A message without a hop left comes back
    /// unchanged.
    pub fn step(self) -> (res: Result<(Address, RelayMessage), RelayMessage>)
        ensures
            match res {
                Ok((hop, rest)) => self@.onward_route.len() > 0 && hop@ == self@.onward_route[0]
                    && rest@ == self@.stepped(),
                Err(same) => self@.onward_route.len() == 0 && same@ == self@,
            },
    {
        let mut message = self;
        match message.onward_route.step() {
            Some(hop) => Ok((hop, message)),
            None => Err(message),
        }
    }

    /// The same message with `hop` put in front of its onward route: what
    /// [`RelayMessage::step`] took off is put back.
    pub fn with_next_hop(self, hop: Address) -> (res: Self)
        ensures
            res@ == (MessageView { onward_route: seq![hop@] + self@.onward_route, ..self@ }),
    {
        let mut message = self;
        message.onward_route.prepend(hop);
        message
    }

    /// The answer to this message, sent by the actor at `from`.
    pub fn reply(&self, from: Address, payload: Vec<u8>) -> (res: RelayMessage)
        ensures
            res@ == self@.reply(from@, payload@),
    {
        let mut back = Route::new();
        back.append(from);
        RelayMessage {
            payload,
            onward_route: self.return_route.clone(),
            return_route: back,
            flow: None,
        }
    }
}

} // verus!
