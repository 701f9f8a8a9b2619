//! Addresses of actors and the routes that messages travel along.

use vstd::prelude::*;
use vstd::string::*;

verus! {

/// The transport type of addresses that name an actor of this node.
pub const LOCAL: u8 = 0;

/// Names one hop of a route: an actor of this node when its transport type is
/// [`LOCAL`], else a peer that the transport of that type knows how to reach.
#[derive(Debug, PartialEq, Eq)]
pub struct Address {
    transport: u8,
    value: String,
}

/// An address as plain values.
pub struct AddressView {
    pub transport: u8,
    pub value: Seq<char>,
}

impl AddressView {
    /// Whether the address names an actor of this node.
    pub open spec fn is_local(self) -> bool {
        self.transport == LOCAL
    }
}

impl View for Address {
    type V = AddressView;

    closed spec fn view(&self) -> AddressView {
        AddressView { transport: self.transport, value: self.value@ }
    }
}

impl Clone for Address {
    fn clone(&self) -> (res: Self)
        ensures
            res@ == self@,
    {
        Address { transport: self.transport, value: self.value.clone() }
    }
}

impl Address {
    /// The address `value` behind the transport of type `transport`.
    pub fn new(transport: u8, value: &str) -> (res: Self)
        ensures
            res@ == (AddressView { transport, value: value@ }),
    {
        Address { transport, value: String::from_str(value) }
    }

    /// The address of the actor called `value` on this node.
    pub fn local(value: &str) -> (res: Self)
        ensures
            res@ == (AddressView { transport: LOCAL, value: value@ }),
    {
        Address { transport: LOCAL, value: String::from_str(value) }
    }

    /// The transport type.
    pub fn transport(&self) -> (res: u8)
        ensures
            res == self@.transport,
    {
        self.transport
    }

    /// The name within the transport.
    pub fn value(&self) -> (res: &str)
        ensures
            res@ == self@.value,
    {
        self.value.as_str()
    }

    /// Whether the address names an actor of this node.
    pub fn is_local(&self) -> (res: bool)
        ensures
            res == self@.is_local(),
    {
        self.transport == LOCAL
    }

    /// Whether the two addresses are the same.
    pub fn equals(&self, other: &Address) -> (res: bool)
        ensures
            res == (self@ == other@),
    {
        self.transport == other.transport && self.value == other.value
    }
}

/// The addresses of a sequence, as plain values.
pub open spec fn addresses_view(hops: Seq<Address>) -> Seq<AddressView> {
    hops.map_values(|a: Address| a@)
}

/// The hops that a message has yet to visit, the next one first.
#[derive(Debug, PartialEq, Eq)]
pub struct Route {
    hops: Vec<Address>,
}

impl View for Route {
    type V = Seq<AddressView>;

    closed spec fn view(&self) -> Seq<AddressView> {
        addresses_view(self.hops@)
    }
}

impl Clone for Route {
    fn clone(&self) -> (res: Self)
        ensures
            res@ == self@,
    {
        let mut hops: Vec<Address> = Vec::new();
        let mut i: usize = 0;
        while i < self.hops.len()
            invariant
                i <= self.hops.len(),
                hops.len() == i,
                addresses_view(hops@) == addresses_view(self.hops@).take(i as int),
            decreases self.hops.len() - i,
        {
            hops.push(self.hops[i].clone());
            i = i + 1;
        }
        Route { hops }
    }
}

impl Route {
    /// The route without hops.
    pub fn new() -> (res: Self)
        ensures
            res@ == Seq::<AddressView>::empty(),
    {
        let res = Route { hops: Vec::new() };
        res
    }

    /// The route that visits `hops` in their order.
    pub fn from_hops(hops: Vec<Address>) -> (res: Self)
        ensures
            res@ == addresses_view(hops@),
    {
        Route { hops }
    }

    /// How many hops are left.
    pub fn len(&self) -> (res: usize)
        ensures
            res == self@.len(),
    {
        self.hops.len()
    }

    /// Whether no hop is left.
    pub fn is_empty(&self) -> (res: bool)
        ensures
            res == (self@.len() == 0),
    {
        self.hops.len() == 0
    }

    /// The hop at position `i`, counted from the next one.
    pub fn hop(&self, i: usize) -> (res: &Address)
        requires
            i < self@.len(),
        ensures
            res@ == self@[i as int],
    {
        &self.hops[i]
    }

    /// The next hop, if one is left.
    pub fn next(&self) -> (res: Option<&Address>)
        ensures
            match res {
                Some(a) => self@.len() > 0 && a@ == self@[0],
                None => self@.len() == 0,
            },
    {
        if self.hops.len() == 0 {
            None
        } else {
            Some(&self.hops[0])
        }
    }

    /// Adds `hop` behind the last hop.
    pub fn append(&mut self, hop: Address)
        ensures
            final(self)@ == old(self)@.push(hop@),
    {
        self.hops.push(hop);
    }

    /// Puts `hop` in front of the next hop.
    pub fn prepend(&mut self, hop: Address)
        ensures
            final(self)@ == seq![hop@] + old(self)@,
    {
        self.hops.insert(0, hop);
    }

    /// Takes the next hop off the route. An empty route has none to give and
    /// stays as it is.
    pub fn step(&mut self) -> (res: Option<Address>)
        ensures
            match res {
                Some(a) => {
                    &&& old(self)@.len() > 0
                    &&& a@ == old(self)@[0]
                    &&& final(self)@ == old(self)@.skip(1)
                },
                None => old(self)@.len() == 0 && final(self)@ == old(self)@,
            },
    {
        if self.hops.len() == 0 {
            None
        } else {
            let first = self.hops.remove(0);
            Some(first)
        }
    }

    /// Whether the two routes visit the same hops in the same order.
    pub fn equals(&self, other: &Route) -> (res: bool)
        ensures
            res == (self@ == other@),
    {
        if self.hops.len() != other.hops.len() {
            return false;
        }
        let mut i: usize = 0;
        while i < self.hops.len()
            invariant
                i <= self.hops.len(),
                self.hops.len() == other.hops.len(),
                self@.take(i as int) == other@.take(i as int),
            decreases self.hops.len() - i,
        {
            if !self.hops[i].equals(&other.hops[i]) {
                assert(self@[i as int] != other@[i as int]);
                return false;
            }
            i = i + 1;
        }
        assert(self@.take(i as int) =~= self@);
        assert(other@.take(i as int) =~= other@);
        true
    }
}

} // verus!
