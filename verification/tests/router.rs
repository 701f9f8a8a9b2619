use ockam_relay::address::LOCAL;
use ockam_relay::relay::lifecycle::{RelayAction, RelayEvent, StepOutcome};
use ockam_relay::relay::mailbox::Mailbox;
use ockam_relay::router::UndeliverableReason;
use ockam_relay::{
    Address, FlowControlId, FlowControls, Node, RelayMessage, Route, RouteOutcome, Router,
    RouterError, SpawnerFlowControlPolicy,
};

fn route(hops: &[&str]) -> Route {
    Route::from_hops(hops.iter().map(|h| Address::local(h)).collect())
}

fn message(payload: &str, onward: &[&str], back: &[&str]) -> RelayMessage {
    RelayMessage::new(payload.as_bytes().to_vec(), route(onward), route(back))
}

#[test]
fn address_knows_whether_it_is_local() {
    let local = Address::local("echo");
    assert!(local.is_local());
    assert_eq!(local.transport(), LOCAL);
    assert_eq!(local.value(), "echo");
    let remote = Address::new(1, "127.0.0.1:4000");
    assert!(!remote.is_local());
    assert_eq!(remote.transport(), 1);
    assert!(local.equals(&Address::new(LOCAL, "echo")));
    assert!(!local.equals(&Address::new(1, "echo")));
    assert!(!local.equals(&Address::local("ech")));
    assert_eq!(local.clone(), local);
}

#[test]
fn route_steps_from_the_front() {
    let mut r = route(&["a", "b"]);
    r.append(Address::local("c"));
    r.prepend(Address::local("z"));
    assert_eq!(r.len(), 4);
    assert_eq!(r.next(), Some(&Address::local("z")));
    assert_eq!(r.hop(3), &Address::local("c"));
    assert_eq!(r.step(), Some(Address::local("z")));
    assert_eq!(r, route(&["a", "b", "c"]));
    assert!(r.equals(&route(&["a", "b", "c"])));
    assert!(!r.equals(&route(&["a", "c", "b"])));
    assert!(!r.equals(&route(&["a", "b"])));
    assert_eq!(r.clone(), r);
    let mut empty = Route::new();
    assert!(empty.is_empty());
    assert_eq!(empty.next(), None);
    assert_eq!(empty.step(), None);
    assert!(empty.is_empty());
}

#[test]
fn message_step_takes_the_next_hop_off() {
    let m = message("ping", &["a", "b"], &["caller"]);
    let (hop, rest) = m.step().unwrap();
    assert_eq!(hop, Address::local("a"));
    assert_eq!(rest, message("ping", &["b"], &["caller"]));
    assert_eq!(
        rest.with_next_hop(Address::local("a")),
        message("ping", &["a", "b"], &["caller"])
    );
    let done = message("ping", &[], &["caller"]);
    assert_eq!(done.clone().step(), Err(done));
}

#[test]
fn echo_gets_ping_and_the_reply_reaches_the_caller() {
    let mut node = Node::new();
    let _echo = node.spawn_worker((), Address::local("echo")).unwrap();
    let _caller = node.spawn_worker((), Address::local("caller")).unwrap();

    let outcome = node.route(message("ping", &["echo"], &["caller"]));
    assert_eq!(outcome, RouteOutcome::Delivered(Address::local("echo")));

    let received = node.receive(&Address::local("echo")).unwrap();
    assert_eq!(received.payload().as_slice(), b"ping");
    assert!(received.onward_route().is_empty());
    assert_eq!(received.return_route(), &route(&["caller"]));

    let reply = received.reply(Address::local("echo"), received.payload().clone());
    assert_eq!(reply, message("ping", &["caller"], &["echo"]));
    assert_eq!(
        node.route(reply),
        RouteOutcome::Delivered(Address::local("caller"))
    );
    let back = node.receive(&Address::local("caller")).unwrap();
    assert_eq!(back.payload().as_slice(), b"ping");
    assert_eq!(back.return_route(), &route(&["echo"]));
    assert!(node.receive(&Address::local("echo")).is_none());
    assert!(node.receive(&Address::local("caller")).is_none());
}

#[test]
fn second_registration_fails_and_the_first_stays() {
    let mut router = Router::new();
    let mut flows = FlowControls::new();
    assert_eq!(router.register(Address::local("svc"), Mailbox::new()), Ok(()));
    assert_eq!(
        router.route(&mut flows, message("first", &["svc"], &[])),
        RouteOutcome::Delivered(Address::local("svc"))
    );
    assert_eq!(
        router.register(Address::local("svc"), Mailbox::new()),
        Err(RouterError::DuplicateAddress)
    );
    assert!(router.is_registered(&Address::local("svc")));
    assert_eq!(router.waiting(&Address::local("svc")), Some(1));
    assert_eq!(
        router.receive(&Address::local("svc")),
        Some(message("first", &[], &[]))
    );
}

#[test]
fn node_refuses_to_spawn_twice_at_one_address() {
    let mut node = Node::new();
    assert!(node.spawn_processor(1u8, Address::local("svc")).is_ok());
    assert_eq!(
        node.spawn_processor(2u8, Address::local("svc")).err(),
        Some(RouterError::DuplicateAddress)
    );
    assert_eq!(
        node.spawn_worker(3u8, Address::local("svc")).err(),
        Some(RouterError::DuplicateAddress)
    );
    assert!(node.router().is_registered(&Address::local("svc")));
}

#[test]
fn deregister_is_idempotent_and_frees_the_address() {
    let mut router = Router::new();
    router.deregister(&Address::local("svc"));
    assert!(!router.is_registered(&Address::local("svc")));
    assert_eq!(router.register(Address::local("svc"), Mailbox::new()), Ok(()));
    router.deregister(&Address::local("svc"));
    router.deregister(&Address::local("svc"));
    assert!(!router.is_registered(&Address::local("svc")));
    assert_eq!(router.waiting(&Address::local("svc")), None);
    assert_eq!(router.register(Address::local("svc"), Mailbox::new()), Ok(()));
}

#[test]
fn forwarder_gets_both_messages_of_its_flow_and_none_of_another() {
    let mut node = Node::new();
    let f1 = FlowControlId::new("F1");
    let f2 = FlowControlId::new("F2");
    node.add_spawner(Address::local("listener"), f1.clone());
    assert_eq!(
        node.flow_controls()
            .spawner_flow(&Address::local("listener")),
        Some(&f1)
    );
    let _forwarder = node.spawn_worker((), Address::local("forwarder")).unwrap();
    node.add_consumer_for_spawner(
        Address::local("forwarder"),
        &f1,
        SpawnerFlowControlPolicy::AllowMultipleMessages,
    );

    let one = message("one", &["forwarder"], &["peer"]).with_flow(f1.clone());
    let two = message("two", &["forwarder"], &["peer"]).with_flow(f1.clone());
    let three = message("three", &["forwarder"], &["peer"]).with_flow(f2.clone());
    assert_eq!(
        node.route(one),
        RouteOutcome::Delivered(Address::local("forwarder"))
    );
    assert_eq!(
        node.route(two),
        RouteOutcome::Delivered(Address::local("forwarder"))
    );
    assert_eq!(
        node.route(three),
        RouteOutcome::Undeliverable(UndeliverableReason::Denied, route(&["peer"]))
    );
    assert_eq!(
        node.router().waiting(&Address::local("forwarder")),
        Some(2)
    );
    let first = node.receive(&Address::local("forwarder")).unwrap();
    assert_eq!(first.payload().as_slice(), b"one");
    assert_eq!(first.flow(), Some(&f1));
    let second = node.receive(&Address::local("forwarder")).unwrap();
    assert_eq!(second.payload().as_slice(), b"two");
    assert!(node.receive(&Address::local("forwarder")).is_none());
}

#[test]
fn message_of_a_flow_without_authorization_is_dropped_not_queued() {
    let mut node = Node::new();
    let _manager = node.spawn_worker((), Address::local("manager")).unwrap();
    let flow = FlowControlId::new("F");
    let intruder = message("open sesame", &["manager"], &[]).with_flow(flow.clone());
    let outcome = node.route(intruder);
    assert_eq!(
        outcome,
        RouteOutcome::Undeliverable(UndeliverableReason::Denied, Route::new())
    );
    assert!(!outcome.is_accepted());
    assert_eq!(outcome.failure_return_route(), None);
    assert_eq!(node.router().waiting(&Address::local("manager")), Some(0));
    assert!(node.receive(&Address::local("manager")).is_none());

    let to_nobody = message("x", &["nobody"], &["peer"]).with_flow(flow);
    let outcome = node.route(to_nobody);
    assert_eq!(
        outcome,
        RouteOutcome::Undeliverable(UndeliverableReason::Denied, route(&["peer"]))
    );
    assert_eq!(outcome.failure_return_route(), Some(&route(&["peer"])));
}

#[test]
fn single_message_authorization_lets_exactly_one_through() {
    let mut node = Node::new();
    let flow = FlowControlId::new("F");
    let _worker = node.spawn_worker((), Address::local("once")).unwrap();
    node.add_consumer_for_spawner(
        Address::local("once"),
        &flow,
        SpawnerFlowControlPolicy::AllowSingleMessage,
    );
    assert_eq!(
        node.flow_controls().policy(&Address::local("once"), &flow),
        Some(SpawnerFlowControlPolicy::AllowSingleMessage)
    );
    let first = message("1", &["once"], &[]).with_flow(flow.clone());
    let second = message("2", &["once"], &[]).with_flow(flow.clone());
    assert_eq!(
        node.route(first),
        RouteOutcome::Delivered(Address::local("once"))
    );
    assert_eq!(
        node.flow_controls().policy(&Address::local("once"), &flow),
        None
    );
    assert_eq!(
        node.route(second),
        RouteOutcome::Undeliverable(UndeliverableReason::Denied, Route::new())
    );
    assert_eq!(node.router().waiting(&Address::local("once")), Some(1));
    assert_eq!(
        node.receive(&Address::local("once")).unwrap().payload().as_slice(),
        b"1"
    );
}

#[test]
fn refusals_do_not_use_up_a_single_message_authorization() {
    let mut router = Router::new();
    let mut flows = FlowControls::new();
    let flow = FlowControlId::new("F");
    flows.add_consumer_for_spawner(
        Address::local("late"),
        &flow,
        SpawnerFlowControlPolicy::AllowSingleMessage,
    );
    let early = message("early", &["late"], &[]).with_flow(flow.clone());
    assert_eq!(
        router.route(&mut flows, early),
        RouteOutcome::Undeliverable(UndeliverableReason::UnknownAddress, Route::new())
    );
    assert!(flows.is_authorized(&Address::local("late"), Some(&flow)));
    assert_eq!(router.register(Address::local("late"), Mailbox::new()), Ok(()));
    let on_time = message("on time", &["late"], &[]).with_flow(flow.clone());
    assert_eq!(
        router.route(&mut flows, on_time),
        RouteOutcome::Delivered(Address::local("late"))
    );
    assert!(!flows.is_authorized(&Address::local("late"), Some(&flow)));
}

#[test]
fn flow_controls_let_through_by_policy() {
    let mut flows = FlowControls::new();
    let flow = FlowControlId::new("F");
    assert_eq!(flow.as_str(), "F");
    let a = Address::local("a");
    assert!(flows.is_authorized(&a, None));
    assert!(flows.let_through(&a, None));
    assert!(!flows.is_authorized(&a, Some(&flow)));
    assert!(!flows.let_through(&a, Some(&flow)));
    flows.add_consumer(a.clone(), &flow);
    assert_eq!(
        flows.policy(&a, &flow),
        Some(SpawnerFlowControlPolicy::AllowMultipleMessages)
    );
    assert!(flows.let_through(&a, Some(&flow)));
    assert!(flows.let_through(&a, Some(&flow)));
    flows.add_consumer_for_spawner(a.clone(), &flow, SpawnerFlowControlPolicy::AllowSingleMessage);
    assert!(flows.let_through(&a, Some(&flow)));
    assert!(!flows.let_through(&a, Some(&flow)));
    assert_eq!(flows.spawner_flow(&a), None);
}

#[test]
fn message_without_a_hop_or_to_nobody_is_undeliverable() {
    let mut node = Node::new();
    assert_eq!(
        node.route(message("x", &[], &["caller"])),
        RouteOutcome::Undeliverable(UndeliverableReason::NoRoute, route(&["caller"]))
    );
    assert_eq!(
        node.route(message("x", &["nobody"], &["caller"])),
        RouteOutcome::Undeliverable(UndeliverableReason::UnknownAddress, route(&["caller"]))
    );
}

#[test]
fn remote_hop_is_handed_to_the_transport_with_the_rest_of_the_route() {
    let mut node = Node::new();
    let tcp = Address::new(1, "127.0.0.1:4000");
    let onward = Route::from_hops(vec![tcp.clone(), Address::local("responder")]);
    let m = RelayMessage::new(b"hello".to_vec(), onward, route(&["app"]));
    let outcome = node.route(m);
    assert!(outcome.is_accepted());
    assert_eq!(
        outcome,
        RouteOutcome::Forward(tcp, message("hello", &["responder"], &["app"]))
    );
}

#[test]
fn full_mailbox_gives_the_message_back_unchanged() {
    let mut node = Node::new();
    let flow = FlowControlId::new("F");
    let _slow = node.spawn_worker((), Address::local("slow")).unwrap();
    node.add_consumer_for_spawner(
        Address::local("slow"),
        &flow,
        SpawnerFlowControlPolicy::AllowSingleMessage,
    );
    for n in 0..32u8 {
        let m = RelayMessage::new(vec![n], route(&["slow"]), Route::new());
        assert_eq!(
            node.route(m),
            RouteOutcome::Delivered(Address::local("slow"))
        );
    }
    let late = message("late", &["slow", "next"], &["caller"]).with_flow(flow.clone());
    assert_eq!(node.route(late.clone()), RouteOutcome::Busy(late.clone()));
    assert_eq!(node.router().waiting(&Address::local("slow")), Some(32));
    assert_eq!(
        node.receive(&Address::local("slow")).unwrap().payload().as_slice(),
        &[0u8]
    );
    assert_eq!(
        node.route(late),
        RouteOutcome::Delivered(Address::local("slow"))
    );
    for n in 1..32u8 {
        assert_eq!(
            node.receive(&Address::local("slow")).unwrap().payload().as_slice(),
            &[n]
        );
    }
    let last = node.receive(&Address::local("slow")).unwrap();
    assert_eq!(last.payload().as_slice(), b"late");
    assert_eq!(last.onward_route(), &route(&["next"]));
}

#[test]
fn shutdown_can_be_requested_once_and_the_address_is_freed_after_the_acknowledgment() {
    let mut node = Node::new();
    let address = Address::local("proc");
    let mut relay = node.spawn_processor((), address.clone()).unwrap();
    assert!(node.request_shutdown(&Address::local("nobody")).is_none());
    let (handed_over, mut rx_ack) = node.request_shutdown(&address).unwrap();
    assert!(handed_over);
    assert!(node.request_shutdown(&address).is_none());
    assert!(node.router().is_registered(&address));

    relay.step(RelayEvent::Started);
    relay.step(RelayEvent::Initialized { ok: true });
    relay.step(RelayEvent::ShutdownRequested);
    relay.step(RelayEvent::Stepped(StepOutcome::Continue));
    assert!(rx_ack.try_recv().is_err());
    let actions = relay.step(RelayEvent::ShutDown { ok: true });
    assert!(matches!(
        actions.as_slice(),
        [RelayAction::Acknowledged(true)]
    ));
    assert_eq!(rx_ack.try_recv(), Ok(()));
    assert!(node.router().is_registered(&address));
    node.deregister(&address);
    assert!(!node.router().is_registered(&address));
    assert!(node.spawn_processor((), address).is_ok());
}

#[test]
fn self_stopped_relay_is_deregistered_by_its_own_action() {
    let mut node = Node::new();
    let address = Address::local("proc");
    let mut relay = node.spawn_processor((), address.clone()).unwrap();
    relay.step(RelayEvent::Started);
    relay.step(RelayEvent::Initialized { ok: true });
    relay.step(RelayEvent::Stepped(StepOutcome::Stop));
    for action in relay.step(RelayEvent::ShutDown { ok: true }) {
        if let RelayAction::Deregister(own) = action {
            assert_eq!(own, address);
            node.deregister(&own);
        }
    }
    assert!(!node.router().is_registered(&address));
    assert!(node.request_shutdown(&address).is_none());
    node.deregister(&address);
    assert!(!node.router().is_registered(&address));
}
