//! The books of a node: its secure channels, and the services, inlets and
//! outlets that run on it.

use crate::address::{Address, AddressView, Route};
use crate::message::FlowControlId;
use crate::table::Table;
use vstd::prelude::*;
use vstd::string::*;

verus! {

/// Names an identity: the party at the other end of a secure channel.
#[derive(Debug, PartialEq, Eq)]
pub struct Identifier {
    value: String,
}

impl View for Identifier {
    type V = Seq<char>;

    closed spec fn view(&self) -> Seq<char> {
        self.value@
    }
}

impl Clone for Identifier {
    fn clone(&self) -> (res: Self)
        ensures
            res@ == self@,
    {
        Identifier { value: self.value.clone() }
    }
}

impl Identifier {
    /// The identifier written as `value`.
    pub fn new(value: &str) -> (res: Self)
        ensures
            res@ == value@,
    {
        Identifier { value: String::from_str(value) }
    }

    /// The identifier as text.
    pub fn as_str(&self) -> (res: &str)
        ensures
            res@ == self@,
    {
        self.value.as_str()
    }

    /// Whether the two identifiers are the same.
    pub fn equals(&self, other: &Identifier) -> (res: bool)
        ensures
            res == (self@ == other@),
    {
        self.value == other.value
    }
}

/// The identifiers of a sequence, as plain values.
pub open spec fn identifiers_view(ids: Seq<Identifier>) -> Seq<Seq<char>> {
    ids.map_values(|i: Identifier| i@)
}

/// The handle of an established secure channel: the address that encrypts
/// what is sent into the channel, by which the channel is known on its node,
/// and the address that decrypts what comes out of it.
#[derive(Debug, PartialEq, Eq)]
pub struct SecureChannel {
    encryptor_address: Address,
    decryptor_address: Address,
}

/// A channel handle as plain values.
pub struct SecureChannelView {
    pub encryptor_address: AddressView,
    pub decryptor_address: AddressView,
}

impl View for SecureChannel {
    type V = SecureChannelView;

    closed spec fn view(&self) -> SecureChannelView {
        SecureChannelView {
            encryptor_address: self.encryptor_address@,
            decryptor_address: self.decryptor_address@,
        }
    }
}

impl Clone for SecureChannel {
    fn clone(&self) -> (res: Self)
        ensures
            res@ == self@,
    {
        SecureChannel {
            encryptor_address: self.encryptor_address.clone(),
            decryptor_address: self.decryptor_address.clone(),
        }
    }
}

impl SecureChannel {
    /// The handle of the channel with these two ends.
    pub fn new(encryptor_address: Address, decryptor_address: Address) -> (res: Self)
        ensures
            res@ == (SecureChannelView {
                encryptor_address: encryptor_address@,
                decryptor_address: decryptor_address@,
            }),
    {
        SecureChannel { encryptor_address, decryptor_address }
    }

    /// The address that encrypts: the local address of the channel.
    pub fn encryptor_address(&self) -> (res: &Address)
        ensures
            res@ == self@.encryptor_address,
    {
        &self.encryptor_address
    }

    /// The address that decrypts.
    pub fn decryptor_address(&self) -> (res: &Address)
        ensures
            res@ == self@.decryptor_address,
    {
        &self.decryptor_address
    }
}

/// A live secure channel as plain values.
pub struct SecureChannelInfoView {
    pub route: Seq<AddressView>,
    pub sc: SecureChannelView,
    pub authorized_identifiers: Option<Seq<Seq<char>>>,
}

impl SecureChannelInfoView {
    /// Whether the peer `identifier` may use the channel. Without a list
    /// every peer may that the channel itself has authenticated.
    pub open spec fn authorizes(self, identifier: Seq<char>) -> bool {
        match self.authorized_identifiers {
            Some(ids) => ids.contains(identifier),
            None => true,
        }
    }
}

/// The view of an optional list of identifiers.
pub open spec fn allowlist_view(ids: Option<Vec<Identifier>>) -> Option<Seq<Seq<char>>> {
    match ids {
        Some(v) => Some(identifiers_view(v@)),
        None => None,
    }
}

/// A live secure channel: the route to the peer, the handle of the channel,
/// and, if the channel is restricted, the identifiers that may use it.
#[derive(Debug, PartialEq, Eq)]
pub struct SecureChannelInfo {
    // Target route of the channel
    route: Route,
    sc: SecureChannel,
    authorized_identifiers: Option<Vec<Identifier>>,
}

impl View for SecureChannelInfo {
    type V = SecureChannelInfoView;

    closed spec fn view(&self) -> SecureChannelInfoView {
        SecureChannelInfoView {
            route: self.route@,
            sc: self.sc@,
            authorized_identifiers: allowlist_view(self.authorized_identifiers),
        }
    }
}

fn clone_identifiers(ids: &Vec<Identifier>) -> (res: Vec<Identifier>)
    ensures
        identifiers_view(res@) == identifiers_view(ids@),
{
    let mut res: Vec<Identifier> = Vec::new();
    let mut i: usize = 0;
    while i < ids.len()
        invariant
            i <= ids.len(),
            res.len() == i,
            identifiers_view(res@) == identifiers_view(ids@).take(i as int),
        decreases ids.len() - i,
    {
        res.push(ids[i].clone());
        i = i + 1;
    }
    res
}

impl Clone for SecureChannelInfo {
    fn clone(&self) -> (res: Self)
        ensures
            res@ == self@,
    {
        let ids = match &self.authorized_identifiers {
            Some(ids) => Some(clone_identifiers(ids)),
            None => None,
        };
        SecureChannelInfo {
            route: self.route.clone(),
            sc: self.sc.clone(),
            authorized_identifiers: ids,
        }
    }
}

impl SecureChannelInfo {
    /// The record of the channel `sc` to the peer at the end of `route`.
    pub fn new(route: Route, sc: SecureChannel, authorized_identifiers: Option<Vec<Identifier>>) -> (res:
        Self)
        ensures
            res@ == (SecureChannelInfoView {
                route: route@,
                sc: sc@,
                authorized_identifiers: allowlist_view(authorized_identifiers),
            }),
    {
        Self { route, sc, authorized_identifiers }
    }

    /// The route to the peer.
    pub fn route(&self) -> (res: &Route)
        ensures
            res@ == self@.route,
    {
        &self.route
    }

    /// The handle of the channel.
    pub fn sc(&self) -> (res: &SecureChannel)
        ensures
            res@ == self@.sc,
    {
        &self.sc
    }

    /// The identifiers that may use the channel, if it is restricted.
    pub fn authorized_identifiers(&self) -> (res: Option<&Vec<Identifier>>)
        ensures
            match res {
                Some(ids) => self@.authorized_identifiers == Some(identifiers_view(ids@)),
                None => self@.authorized_identifiers is None,
            },
    {
        self.authorized_identifiers.as_ref()
    }

    /// Whether the peer `identifier` may use the channel.
    pub fn is_authorized(&self, identifier: &Identifier) -> (res: bool)
        ensures
            res == self@.authorizes(identifier@),
    {
        match &self.authorized_identifiers {
            None => true,
            Some(ids) => {
                let mut i: usize = 0;
                while i < ids.len()
                    invariant
                        i <= ids.len(),
                        self@.authorized_identifiers == Some(identifiers_view(ids@)),
                        forall|j: int| 0 <= j < i ==> identifiers_view(ids@)[j] != identifier@,
                    decreases ids.len() - i,
                {
                    if ids[i].equals(identifier) {
                        assert(identifiers_view(ids@)[i as int] == identifier@);
                        return true;
                    }
                    i = i + 1;
                }
                false
            },
        }
    }
}

/// The records of a sequence, as plain values.
pub open spec fn channels_view(channels: Seq<SecureChannelInfo>) -> Seq<SecureChannelInfoView> {
    channels.map_values(|c: SecureChannelInfo| c@)
}

/// Whether one of `channels` has the local address `addr`.
pub open spec fn has_channel(channels: Seq<SecureChannelInfoView>, addr: AddressView) -> bool {
    exists|i: int| 0 <= i < channels.len() && (#[trigger] channels[i]).sc.encryptor_address == addr
}

/// `channels` without those that have the local address `addr`, the others
/// in their order.
pub open spec fn without_channel(
    channels: Seq<SecureChannelInfoView>,
    addr: AddressView,
) -> Seq<SecureChannelInfoView>
    decreases channels.len(),
{
    if channels.len() == 0 {
        channels
    } else if channels.last().sc.encryptor_address == addr {
        without_channel(channels.drop_last(), addr)
    } else {
        without_channel(channels.drop_last(), addr).push(channels.last())
    }
}

/// Whether no two of `channels` have the same local address.
pub open spec fn distinct_channels(channels: Seq<SecureChannelInfoView>) -> bool {
    forall|i: int, j: int|
        0 <= i < j < channels.len() ==> (#[trigger] channels[i]).sc.encryptor_address != (
        #[trigger] channels[j]).sc.encryptor_address
}

/// What is left after a removal: records that were there before, none with
/// the removed address, and all of the others. Where the address was not
/// there, nothing changes.
pub proof fn lemma_without_channel(channels: Seq<SecureChannelInfoView>, addr: AddressView)
    ensures
        !has_channel(without_channel(channels, addr), addr),
        without_channel(channels, addr).len() <= channels.len(),
        forall|i: int|
            0 <= i < without_channel(channels, addr).len() ==> channels.contains(
                #[trigger] without_channel(channels, addr)[i],
            ),
        forall|i: int|
            0 <= i < channels.len() && (#[trigger] channels[i]).sc.encryptor_address != addr
                ==> without_channel(channels, addr).contains(channels[i]),
        distinct_channels(channels) ==> distinct_channels(without_channel(channels, addr)),
        !has_channel(channels, addr) ==> without_channel(channels, addr) == channels,
    decreases channels.len(),
{
    let out = without_channel(channels, addr);
    if channels.len() > 0 {
        let rest = channels.drop_last();
        let out_rest = without_channel(rest, addr);
        lemma_without_channel(rest, addr);
        assert forall|i: int| 0 <= i < out.len() implies channels.contains(#[trigger] out[i]) by {
            if i < out_rest.len() {
                assert(rest.contains(out_rest[i]));
                let k = choose|k: int| 0 <= k < rest.len() && rest[k] == out_rest[i];
                assert(channels[k] == out[i]);
            } else {
                assert(channels[channels.len() - 1] == out[i]);
            }
        }
        assert forall|i: int|
            0 <= i < channels.len() && (#[trigger] channels[i]).sc.encryptor_address
                != addr implies out.contains(channels[i]) by {
            if i < rest.len() {
                assert(rest[i] == channels[i]);
                assert(out_rest.contains(rest[i]));
                let k = choose|k: int| 0 <= k < out_rest.len() && out_rest[k] == rest[i];
                assert(out[k] == channels[i]);
            } else {
                assert(out[out.len() - 1] == channels[i]);
            }
        }
        if has_channel(out, addr) {
            let k = choose|k: int| 0 <= k < out.len() && (#[trigger] out[k]).sc.encryptor_address
                == addr;
            if k < out_rest.len() {
                assert(out_rest[k].sc.encryptor_address == addr);
            }
        }
        if distinct_channels(channels) {
            assert forall|i: int, j: int| 0 <= i < j < rest.len() implies (#[trigger] rest[i])
                .sc.encryptor_address != (#[trigger] rest[j]).sc.encryptor_address by {
                assert(channels[i].sc.encryptor_address != channels[j].sc.encryptor_address);
            }
            assert forall|i: int, j: int| 0 <= i < j < out.len() implies (#[trigger] out[i])
                .sc.encryptor_address != (#[trigger] out[j]).sc.encryptor_address by {
                if j < out_rest.len() {
                    assert(out_rest[i].sc.encryptor_address != out_rest[j].sc.encryptor_address);
                } else {
                    assert(rest.contains(out_rest[i]));
                    let k = choose|k: int| 0 <= k < rest.len() && rest[k] == out_rest[i];
                    assert(channels[k].sc.encryptor_address != channels[channels.len()
                        - 1].sc.encryptor_address);
                }
            }
        }
        if !has_channel(channels, addr) {
            assert(channels[channels.len() - 1].sc.encryptor_address != addr);
            if has_channel(rest, addr) {
                let k = choose|k: int| 0 <= k < rest.len() && (#[trigger] rest[k])
                    .sc.encryptor_address == addr;
                assert(channels[k].sc.encryptor_address == addr);
            }
            assert(out =~= channels);
        }
    }
}

/// The live secure channels of a node, each known by its local address.
#[derive(Debug)]
pub struct SecureChannelRegistry {
    channels: Vec<SecureChannelInfo>,
}

impl View for SecureChannelRegistry {
    type V = Seq<SecureChannelInfoView>;

    closed spec fn view(&self) -> Seq<SecureChannelInfoView> {
        channels_view(self.channels@)
    }
}

impl Default for SecureChannelRegistry {
    fn default() -> (res: Self)
        ensures
            res.wf(),
            res@ == Seq::<SecureChannelInfoView>::empty(),
    {
        let res = SecureChannelRegistry { channels: Vec::new() };
        res
    }
}

impl SecureChannelRegistry {
    /// No two channels have the same local address.
    pub open spec fn wf(&self) -> bool {
        distinct_channels(self@)
    }

    /// The channel with the local address `addr`, if it is live.
    pub fn get_by_addr(&self, addr: &Address) -> (res: Option<&SecureChannelInfo>)
        ensures
            match res {
                Some(info) => self@.contains(info@) && info@.sc.encryptor_address == addr@,
                None => !has_channel(self@, addr@),
            },
    {
        let mut i: usize = 0;
        while i < self.channels.len()
            invariant
                i <= self.channels.len(),
                forall|j: int| 0 <= j < i ==> (#[trigger] self@[j]).sc.encryptor_address != addr@,
            decreases self.channels.len() - i,
        {
            if self.channels[i].sc().encryptor_address().equals(addr) {
                assert(self@[i as int] == self.channels[i as int]@);
                return Some(&self.channels[i]);
            }
            i = i + 1;
        }
        None
    }

    /// Enters a channel. A record that was kept under the same local address
    /// is replaced, so that each address stays there once.
    pub fn insert(
        &mut self,
        route: Route,
        sc: SecureChannel,
        authorized_identifiers: Option<Vec<Identifier>>,
    )
        requires
            old(self).wf(),
        ensures
            final(self).wf(),
            final(self)@ == without_channel(old(self)@, sc@.encryptor_address).push(
                SecureChannelInfoView {
                    route: route@,
                    sc: sc@,
                    authorized_identifiers: allowlist_view(authorized_identifiers),
                },
            ),
    {
        self.remove_by_addr(sc.encryptor_address());
        let ghost kept = self@;
        let info = SecureChannelInfo::new(route, sc, authorized_identifiers);
        self.channels.push(info);
        proof {
            lemma_without_channel(old(self)@, sc@.encryptor_address);
            assert forall|i: int, j: int| 0 <= i < j < self@.len() implies (#[trigger] self@[i])
                .sc.encryptor_address != (#[trigger] self@[j]).sc.encryptor_address by {
                if j < kept.len() {
                    assert(kept[i].sc.encryptor_address != kept[j].sc.encryptor_address);
                }
            }
        }
    }

    /// Takes out the channel with the local address `addr`. Where there is
    /// none, nothing changes.
    pub fn remove_by_addr(&mut self, addr: &Address)
        ensures
            final(self)@ == without_channel(old(self)@, addr@),
            !has_channel(final(self)@, addr@),
            !has_channel(old(self)@, addr@) ==> final(self)@ == old(self)@,
            old(self).wf() ==> final(self).wf(),
    {
        let mut i: usize = 0;
        let ghost mut seen: int = 0;
        while i < self.channels.len()
            invariant
                0 <= seen <= old(self)@.len(),
                i <= self.channels.len(),
                i == without_channel(old(self)@.take(seen), addr@).len(),
                self@ == without_channel(old(self)@.take(seen), addr@) + old(self)@.skip(seen),
            decreases self.channels.len() - i,
        {
            proof {
                assert(self@[i as int] == old(self)@[seen]);
                assert(old(self)@.take(seen + 1).drop_last() =~= old(self)@.take(seen));
            }
            if self.channels[i].sc().encryptor_address().equals(addr) {
                let ghost before = self@;
                self.channels.remove(i);
                proof {
                    let kept = without_channel(old(self)@.take(seen), addr@);
                    assert(before.remove(i as int) =~= kept + old(self)@.skip(seen + 1));
                }
            } else {
                i = i + 1;
            }
            proof {
                seen = seen + 1;
            }
        }
        proof {
            assert(old(self)@.take(seen) =~= old(self)@);
            lemma_without_channel(old(self)@, addr@);
        }
    }

    /// The live channels, in the order in which they were entered.
    pub fn list(&self) -> (res: &[SecureChannelInfo])
        ensures
            channels_view(res@) == self@,
    {
        self.channels.as_slice()
    }
}

/// A listener that establishes secure channels with whoever connects: the
/// address it listens at, and the flow with which it tags what arrives over
/// the channels it spawns.
#[derive(Debug, PartialEq, Eq)]
pub struct SecureChannelListener {
    address: Address,
    flow_control_id: FlowControlId,
}

impl SecureChannelListener {
    /// The address that the listener listens at.
    pub closed spec fn address_view(&self) -> AddressView {
        self.address@
    }

    /// The flow of the listener.
    pub closed spec fn flow_view(&self) -> Seq<char> {
        self.flow_control_id@
    }

    /// The listener at `address` that spawns into `flow_control_id`.
    pub fn new(address: Address, flow_control_id: FlowControlId) -> (res: Self)
        ensures
            res.address_view() == address@,
            res.flow_view() == flow_control_id@,
    {
        SecureChannelListener { address, flow_control_id }
    }

    /// The address that the listener listens at.
    pub fn address(&self) -> (res: &Address)
        ensures
            res@ == self.address_view(),
    {
        &self.address
    }

    /// The flow of the listener.
    pub fn flow_control_id(&self) -> (res: &FlowControlId)
        ensures
            res@ == self.flow_view(),
    {
        &self.flow_control_id
    }
}

impl Clone for SecureChannelListener {
    fn clone(&self) -> (res: Self)
        ensures
            res.address_view() == self.address_view(),
            res.flow_view() == self.flow_view(),
    {
        SecureChannelListener {
            address: self.address.clone(),
            flow_control_id: self.flow_control_id.clone(),
        }
    }
}

/// A secure channel listener that runs on the node.
#[derive(Debug, PartialEq, Eq)]
pub struct SecureChannelListenerInfo {
    listener: SecureChannelListener,
}

impl SecureChannelListenerInfo {
    /// The record of `listener`.
    pub fn new(listener: SecureChannelListener) -> (res: Self)
        ensures
            *res.listener_spec() == listener,
    {
        Self { listener }
    }

    /// The listener of the record.
    pub closed spec fn listener_spec(&self) -> &SecureChannelListener {
        &self.listener
    }

    /// The listener of the record.
    pub fn listener(&self) -> (res: &SecureChannelListener)
        ensures
            res == self.listener_spec(),
    {
        &self.listener
    }
}

/// An identity service that runs on the node.
#[derive(Debug, Default)]
pub struct IdentityServiceInfo {}

/// An authenticated service that runs on the node.
#[derive(Debug, Default)]
pub struct AuthenticatedServiceInfo {}

/// An identity provider service that runs on the node.
#[derive(Debug, Default)]
pub struct OktaIdentityProviderServiceInfo {}

/// An uppercase service that runs on the node.
#[derive(Debug, Default)]
pub struct UppercaseServiceInfo {}

/// An echoer service that runs on the node.
#[derive(Debug, Default)]
pub struct EchoerServiceInfo {}

/// A hop service that runs on the node.
#[derive(Debug, Default)]
pub struct HopServiceInfo {}

/// A verifier service that runs on the node.
#[derive(Debug, Default)]
pub struct VerifierServiceInfo {}

/// A credentials service that runs on the node.
#[derive(Debug, Default)]
pub struct CredentialsServiceInfo {}

/// The role in which a node takes part in a Kafka deployment.
#[derive(Clone, Copy, Debug, PartialEq, Eq, Structural)]
pub enum KafkaServiceKind {
    Consumer,
    Producer,
    Outlet,
    Direct,
}

impl KafkaServiceKind {
    /// The name of the role, as it is shown and typed.
    pub open spec fn name(self) -> Seq<char> {
        match self {
            KafkaServiceKind::Consumer => "consumer"@,
            KafkaServiceKind::Producer => "producer"@,
            KafkaServiceKind::Outlet => "outlet"@,
            KafkaServiceKind::Direct => "direct"@,
        }
    }

    /// The name of the role, as it is shown and typed.
    pub fn to_string(&self) -> (res: String)
        ensures
            res@ == self.name(),
    {
        match self {
            KafkaServiceKind::Consumer => String::from_str("consumer"),
            KafkaServiceKind::Producer => String::from_str("producer"),
            KafkaServiceKind::Outlet => String::from_str("outlet"),
            KafkaServiceKind::Direct => String::from_str("direct"),
        }
    }
}

/// A Kafka service that runs on the node.
#[derive(Debug, PartialEq, Eq)]
pub struct KafkaServiceInfo {
    kind: KafkaServiceKind,
}

impl KafkaServiceInfo {
    /// The role of the service.
    pub closed spec fn kind_spec(&self) -> KafkaServiceKind {
        self.kind
    }

    /// The record of a service in the role `kind`.
    pub fn new(kind: KafkaServiceKind) -> (res: Self)
        ensures
            res.kind_spec() == kind,
    {
        Self { kind }
    }

    /// The role of the service.
    pub fn kind(&self) -> (res: &KafkaServiceKind)
        ensures
            *res == self.kind_spec(),
    {
        &self.kind
    }
}

/// The address of the worker behind an inlet or outlet: the one given, or
/// the local address with the empty name while none is known.
pub open spec fn worker_address_or_empty(worker_addr: Option<&Address>) -> AddressView {
    match worker_addr {
        Some(addr) => addr@,
        None => AddressView { transport: crate::address::LOCAL, value: Seq::empty() },
    }
}

fn worker_address(worker_addr: Option<&Address>) -> (res: Address)
    ensures
        res@ == worker_address_or_empty(worker_addr),
{
    match worker_addr {
        Some(addr) => addr.clone(),
        None => {
            proof {
                reveal_strlit("");
            }
            let res = Address::local("");
            assert(res@.value =~= Seq::<char>::empty());
            res
        },
    }
}

/// An inlet as plain values.
pub struct InletInfoView {
    pub bind_addr: Seq<char>,
    pub worker_addr: AddressView,
    pub outlet_route: Seq<AddressView>,
}

/// An inlet that runs on the node: where it listens, the worker that serves
/// it, and the route to the outlet at the other end.
#[derive(Debug, PartialEq, Eq)]
pub struct InletInfo {
    bind_addr: String,
    worker_addr: Address,
    outlet_route: Route,
}

impl View for InletInfo {
    type V = InletInfoView;

    closed spec fn view(&self) -> InletInfoView {
        InletInfoView {
            bind_addr: self.bind_addr@,
            worker_addr: self.worker_addr@,
            outlet_route: self.outlet_route@,
        }
    }
}

impl Clone for InletInfo {
    fn clone(&self) -> (res: Self)
        ensures
            res@ == self@,
    {
        InletInfo {
            bind_addr: self.bind_addr.clone(),
            worker_addr: self.worker_addr.clone(),
            outlet_route: self.outlet_route.clone(),
        }
    }
}

impl InletInfo {
    /// The record of the inlet that listens at `bind_addr`.
    pub fn new(bind_addr: &str, worker_addr: Option<&Address>, outlet_route: &Route) -> (res: Self)
        ensures
            res@ == (InletInfoView {
                bind_addr: bind_addr@,
                worker_addr: worker_address_or_empty(worker_addr),
                outlet_route: outlet_route@,
            }),
    {
        let worker_addr = worker_address(worker_addr);
        Self {
            bind_addr: String::from_str(bind_addr),
            worker_addr,
            outlet_route: outlet_route.clone(),
        }
    }

    /// Where the inlet listens.
    pub fn bind_addr(&self) -> (res: &str)
        ensures
            res@ == self@.bind_addr,
    {
        self.bind_addr.as_str()
    }

    /// The worker that serves the inlet.
    pub fn worker_addr(&self) -> (res: &Address)
        ensures
            res@ == self@.worker_addr,
    {
        &self.worker_addr
    }

    /// The route to the outlet at the other end.
    pub fn outlet_route(&self) -> (res: &Route)
        ensures
            res@ == self@.outlet_route,
    {
        &self.outlet_route
    }
}

/// The address of a socket: an IP address, as the number that its bytes
/// spell in network order, and a port.
#[derive(Clone, Copy, Debug, PartialEq, Eq, Structural)]
pub enum SocketAddress {
    /// An IPv4 address and a port.
    V4(u32, u16),
    /// An IPv6 address and a port.
    V6(u128, u16),
}

/// An outlet as plain values.
pub struct OutletInfoView {
    pub socket_addr: SocketAddress,
    pub worker_addr: AddressView,
}

/// An outlet that runs on the node: the socket it connects to, and the
/// worker that serves it.
#[derive(Debug, PartialEq, Eq)]
pub struct OutletInfo {
    socket_addr: SocketAddress,
    worker_addr: Address,
}

impl View for OutletInfo {
    type V = OutletInfoView;

    closed spec fn view(&self) -> OutletInfoView {
        OutletInfoView { socket_addr: self.socket_addr, worker_addr: self.worker_addr@ }
    }
}

impl Clone for OutletInfo {
    fn clone(&self) -> (res: Self)
        ensures
            res@ == self@,
    {
        OutletInfo { socket_addr: self.socket_addr, worker_addr: self.worker_addr.clone() }
    }
}

impl OutletInfo {
    /// The record of the outlet that connects to `socket_addr`.
    pub fn new(socket_addr: &SocketAddress, worker_addr: Option<&Address>) -> (res: Self)
        ensures
            res@ == (OutletInfoView {
                socket_addr: *socket_addr,
                worker_addr: worker_address_or_empty(worker_addr),
            }),
    {
        let worker_addr = worker_address(worker_addr);
        Self { socket_addr: *socket_addr, worker_addr }
    }

    /// The socket that the outlet connects to.
    pub fn socket_addr(&self) -> (res: SocketAddress)
        ensures
            res == self@.socket_addr,
    {
        self.socket_addr
    }

    /// The worker that serves the outlet.
    pub fn worker_addr(&self) -> (res: &Address)
        ensures
            res@ == self@.worker_addr,
    {
        &self.worker_addr
    }
}

/// A forwarder through which a remote node reaches this one.
#[derive(Debug, PartialEq, Eq)]
pub struct RemoteForwarderInfo {
    forwarding_route: Route,
    remote_address: Address,
    worker_address: Address,
}

/// A forwarder as plain values.
pub struct RemoteForwarderInfoView {
    pub forwarding_route: Seq<AddressView>,
    pub remote_address: AddressView,
    pub worker_address: AddressView,
}

impl View for RemoteForwarderInfo {
    type V = RemoteForwarderInfoView;

    closed spec fn view(&self) -> RemoteForwarderInfoView {
        RemoteForwarderInfoView {
            forwarding_route: self.forwarding_route@,
            remote_address: self.remote_address@,
            worker_address: self.worker_address@,
        }
    }
}

impl RemoteForwarderInfo {
    /// The record of the forwarder at `remote_address`, reached over
    /// `forwarding_route` and served here by `worker_address`.
    pub fn new(forwarding_route: Route, remote_address: Address, worker_address: Address) -> (res:
        Self)
        ensures
            res@ == (RemoteForwarderInfoView {
                forwarding_route: forwarding_route@,
                remote_address: remote_address@,
                worker_address: worker_address@,
            }),
    {
        RemoteForwarderInfo { forwarding_route, remote_address, worker_address }
    }

    /// The route over which the forwarder is reached.
    pub fn forwarding_route(&self) -> (res: &Route)
        ensures
            res@ == self@.forwarding_route,
    {
        &self.forwarding_route
    }

    /// The address of the forwarder on the remote node.
    pub fn remote_address(&self) -> (res: &Address)
        ensures
            res@ == self@.remote_address,
    {
        &self.remote_address
    }

    /// The worker that serves the forwarder on this node.
    pub fn worker_address(&self) -> (res: &Address)
        ensures
            res@ == self@.worker_address,
    {
        &self.worker_address
    }
}

/// The books of a node. They record what runs; they decide nothing.
#[derive(Debug)]
pub struct Registry {
    pub secure_channels: SecureChannelRegistry,
    pub secure_channel_listeners: Table<Address, SecureChannelListenerInfo>,
    pub authenticated_services: Table<Address, AuthenticatedServiceInfo>,
    pub uppercase_services: Table<Address, UppercaseServiceInfo>,
    pub echoer_services: Table<Address, EchoerServiceInfo>,
    pub kafka_services: Table<Address, KafkaServiceInfo>,
    pub hop_services: Table<Address, HopServiceInfo>,
    pub credentials_services: Table<Address, CredentialsServiceInfo>,
    /// The forwarders, each under the name of its remote node.
    pub forwarders: Table<String, RemoteForwarderInfo>,
    /// The inlets, each under its alias.
    pub inlets: Table<String, InletInfo>,
    /// The outlets, each under its alias.
    pub outlets: Table<String, OutletInfo>,
}

impl Registry {
    /// Every book holds each of its keys once.
    pub open spec fn wf(&self) -> bool {
        &&& self.secure_channels.wf()
        &&& self.secure_channel_listeners.wf()
        &&& self.authenticated_services.wf()
        &&& self.uppercase_services.wf()
        &&& self.echoer_services.wf()
        &&& self.kafka_services.wf()
        &&& self.hop_services.wf()
        &&& self.credentials_services.wf()
        &&& self.forwarders.wf()
        &&& self.inlets.wf()
        &&& self.outlets.wf()
    }

    /// Whether nothing is recorded.
    pub open spec fn is_empty(&self) -> bool {
        &&& self.secure_channels@.len() == 0
        &&& self.secure_channel_listeners@.dom() == Set::<AddressView>::empty()
        &&& self.authenticated_services@.dom() == Set::<AddressView>::empty()
        &&& self.uppercase_services@.dom() == Set::<AddressView>::empty()
        &&& self.echoer_services@.dom() == Set::<AddressView>::empty()
        &&& self.kafka_services@.dom() == Set::<AddressView>::empty()
        &&& self.hop_services@.dom() == Set::<AddressView>::empty()
        &&& self.credentials_services@.dom() == Set::<AddressView>::empty()
        &&& self.forwarders@.dom() == Set::<Seq<char>>::empty()
        &&& self.inlets@.dom() == Set::<Seq<char>>::empty()
        &&& self.outlets@.dom() == Set::<Seq<char>>::empty()
    }
}

impl Default for Registry {
    fn default() -> (res: Self)
        ensures
            res.wf(),
            res.is_empty(),
    {
        Registry {
            secure_channels: SecureChannelRegistry::default(),
            secure_channel_listeners: Table::new(),
            authenticated_services: Table::new(),
            uppercase_services: Table::new(),
            echoer_services: Table::new(),
            kafka_services: Table::new(),
            hop_services: Table::new(),
            credentials_services: Table::new(),
            forwarders: Table::new(),
            inlets: Table::new(),
            outlets: Table::new(),
        }
    }
}

} // verus!
