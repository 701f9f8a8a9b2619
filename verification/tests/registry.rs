use ockam_relay::nodes::registry::{
    Identifier, InletInfo, KafkaServiceInfo, KafkaServiceKind, OutletInfo, Registry,
    RemoteForwarderInfo, SecureChannel, SecureChannelInfo, SecureChannelListener,
    SecureChannelListenerInfo, SecureChannelRegistry, SocketAddress,
};
use ockam_relay::{Address, FlowControlId, Node, Route};

fn channel(name: &str) -> SecureChannel {
    SecureChannel::new(
        Address::local(&format!("{name}.encryptor")),
        Address::local(&format!("{name}.decryptor")),
    )
}

fn route_to(peer: &str) -> Route {
    Route::from_hops(vec![Address::new(1, peer), Address::local("api")])
}

#[test]
fn removed_secure_channel_is_absent_and_removing_again_is_no_error() {
    let mut registry = SecureChannelRegistry::default();
    registry.insert(route_to("a:1"), channel("a"), None);
    registry.insert(route_to("b:1"), channel("b"), None);
    let local = Address::local("a.encryptor");
    assert!(registry.get_by_addr(&local).is_some());

    registry.remove_by_addr(&local);
    assert!(registry.get_by_addr(&local).is_none());
    assert_eq!(registry.list().len(), 1);

    registry.remove_by_addr(&local);
    assert!(registry.get_by_addr(&local).is_none());
    assert_eq!(registry.list().len(), 1);
    assert_eq!(
        registry.list()[0],
        SecureChannelInfo::new(route_to("b:1"), channel("b"), None)
    );
}

#[test]
fn secure_channels_are_listed_in_the_order_of_entry() {
    let mut registry = SecureChannelRegistry::default();
    assert!(registry.list().is_empty());
    registry.insert(route_to("a:1"), channel("a"), None);
    registry.insert(route_to("b:1"), channel("b"), None);
    registry.insert(route_to("c:1"), channel("c"), None);
    registry.remove_by_addr(&Address::local("b.encryptor"));
    let list = registry.list();
    assert_eq!(list.len(), 2);
    assert_eq!(list[0].sc(), &channel("a"));
    assert_eq!(list[1].sc(), &channel("c"));
    assert_eq!(list[1].route(), &route_to("c:1"));
}

#[test]
fn secure_channel_is_found_by_its_encryptor_address_only() {
    let mut registry = SecureChannelRegistry::default();
    registry.insert(route_to("a:1"), channel("a"), None);
    let found = registry.get_by_addr(&Address::local("a.encryptor")).unwrap();
    assert_eq!(found.sc().encryptor_address(), &Address::local("a.encryptor"));
    assert_eq!(found.sc().decryptor_address(), &Address::local("a.decryptor"));
    assert!(registry.get_by_addr(&Address::local("a.decryptor")).is_none());
    assert!(registry.get_by_addr(&Address::new(1, "a.encryptor")).is_none());
}

#[test]
fn entering_a_channel_again_replaces_its_record() {
    let mut registry = SecureChannelRegistry::default();
    registry.insert(route_to("a:1"), channel("a"), None);
    registry.insert(route_to("b:1"), channel("b"), None);
    registry.insert(route_to("a:2"), channel("a"), Some(vec![Identifier::new("I1")]));
    let list = registry.list();
    assert_eq!(list.len(), 2);
    assert_eq!(list[0].sc(), &channel("b"));
    assert_eq!(list[1].route(), &route_to("a:2"));
    let found = registry.get_by_addr(&Address::local("a.encryptor")).unwrap();
    assert_eq!(found.route(), &route_to("a:2"));
}

#[test]
fn channel_without_allowlist_trusts_every_authenticated_peer() {
    let open = SecureChannelInfo::new(route_to("a:1"), channel("a"), None);
    assert!(open.authorized_identifiers().is_none());
    assert!(open.is_authorized(&Identifier::new("anyone")));

    let ids = vec![Identifier::new("I1"), Identifier::new("I2")];
    let closed = SecureChannelInfo::new(route_to("a:1"), channel("a"), Some(ids.clone()));
    assert_eq!(closed.authorized_identifiers(), Some(&ids));
    assert!(closed.is_authorized(&Identifier::new("I1")));
    assert!(closed.is_authorized(&Identifier::new("I2")));
    assert!(!closed.is_authorized(&Identifier::new("I3")));
    assert_eq!(closed.clone(), closed);
    assert_eq!(Identifier::new("I1").as_str(), "I1");

    let nobody = SecureChannelInfo::new(route_to("a:1"), channel("a"), Some(vec![]));
    assert!(!nobody.is_authorized(&Identifier::new("I1")));
}

#[test]
fn node_registers_and_removes_secure_channels() {
    let mut node = Node::new();
    node.register_secure_channel(route_to("a:1"), channel("a"), None);
    let local = Address::local("a.encryptor");
    assert_eq!(
        node.secure_channel(&local),
        Some(&SecureChannelInfo::new(route_to("a:1"), channel("a"), None))
    );
    assert_eq!(node.secure_channels().list().len(), 1);
    node.remove_secure_channel(&local);
    assert_eq!(node.secure_channel(&local), None);
    node.remove_secure_channel(&local);
    assert_eq!(node.secure_channel(&local), None);
    assert!(node.secure_channels().list().is_empty());
}

#[test]
fn kafka_service_kinds_have_their_names() {
    assert_eq!(KafkaServiceKind::Consumer.to_string(), "consumer");
    assert_eq!(KafkaServiceKind::Producer.to_string(), "producer");
    assert_eq!(KafkaServiceKind::Outlet.to_string(), "outlet");
    assert_eq!(KafkaServiceKind::Direct.to_string(), "direct");
    let info = KafkaServiceInfo::new(KafkaServiceKind::Outlet);
    assert_eq!(info.kind(), &KafkaServiceKind::Outlet);
}

#[test]
fn inlet_and_outlet_default_to_the_empty_worker_address() {
    let outlet_route = route_to("b:1");
    let inlet = InletInfo::new("127.0.0.1:5000", None, &outlet_route);
    assert_eq!(inlet.bind_addr(), "127.0.0.1:5000");
    assert_eq!(inlet.worker_addr(), &Address::local(""));
    assert_eq!(inlet.outlet_route(), &outlet_route);
    let worker = Address::local("inlet-worker");
    let inlet = InletInfo::new("127.0.0.1:5000", Some(&worker), &outlet_route);
    assert_eq!(inlet.worker_addr(), &worker);
    assert_eq!(inlet.clone(), inlet);

    let socket = SocketAddress::V4(0x7f00_0001, 5432);
    let outlet = OutletInfo::new(&socket, None);
    assert_eq!(outlet.socket_addr(), socket);
    assert_eq!(outlet.worker_addr(), &Address::local(""));
    let outlet = OutletInfo::new(&SocketAddress::V6(1, 5432), Some(&worker));
    assert_eq!(outlet.socket_addr(), SocketAddress::V6(1, 5432));
    assert_eq!(outlet.worker_addr(), &worker);
    assert_eq!(outlet.clone(), outlet);
}

#[test]
fn registry_starts_empty_and_keeps_what_is_entered() {
    let mut registry = Registry::default();
    assert!(registry.secure_channels.list().is_empty());
    assert_eq!(registry.kafka_services.count(), 0);
    assert_eq!(registry.inlets.count(), 0);
    assert_eq!(registry.outlets.count(), 0);
    assert_eq!(registry.forwarders.count(), 0);

    let listener = SecureChannelListener::new(Address::local("api"), FlowControlId::new("F"));
    assert_eq!(listener.address(), &Address::local("api"));
    assert_eq!(listener.flow_control_id(), &FlowControlId::new("F"));
    registry.secure_channel_listeners.insert(
        Address::local("api"),
        SecureChannelListenerInfo::new(listener.clone()),
    );
    assert_eq!(
        registry
            .secure_channel_listeners
            .get(&Address::local("api"))
            .map(|i| i.listener()),
        Some(&listener)
    );

    registry.kafka_services.insert(
        Address::local("kafka"),
        KafkaServiceInfo::new(KafkaServiceKind::Producer),
    );
    assert_eq!(
        registry.kafka_services.get(&Address::local("kafka")),
        Some(&KafkaServiceInfo::new(KafkaServiceKind::Producer))
    );

    let forwarder = RemoteForwarderInfo::new(
        route_to("hub:4000"),
        Address::local("forward_to_me"),
        Address::local("me"),
    );
    assert_eq!(forwarder.forwarding_route(), &route_to("hub:4000"));
    assert_eq!(forwarder.remote_address(), &Address::local("forward_to_me"));
    assert_eq!(forwarder.worker_address(), &Address::local("me"));
    registry.forwarders.insert("hub".to_string(), forwarder);
    assert!(registry.forwarders.contains_key(&"hub".to_string()));

    registry.outlets.insert(
        "db".to_string(),
        OutletInfo::new(&SocketAddress::V4(0x7f00_0001, 5432), None),
    );
    assert!(registry.outlets.remove(&"db".to_string()).is_some());
    assert!(registry.outlets.remove(&"db".to_string()).is_none());
}
