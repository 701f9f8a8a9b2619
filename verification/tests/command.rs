use ockam_relay::command::node::{
    check_default, delete_all_nodes, embedded_node_setup, same_text, spawn_node,
    start_embedded_node, Deletion, TrustContextOpts, NODEMANAGER_ADDR,
};
use ockam_relay::command::tcp_outlet::DeleteCommand;
use ockam_relay::router::UndeliverableReason;
use ockam_relay::{
    Address, FlowControlId, Node, RelayMessage, Route, RouteOutcome, RouterError,
    SpawnerFlowControlPolicy,
};

fn strings(args: &[&str]) -> Vec<String> {
    args.iter().map(|a| a.to_string()).collect()
}

#[test]
fn spawn_node_with_nothing_extra() {
    let args = spawn_node(
        0,
        true,
        "n1",
        "127.0.0.1:4000",
        None,
        None,
        None,
        None,
        None,
        None,
        None,
        None,
        None,
        false,
    );
    assert_eq!(
        args,
        strings(&[
            "-vv",
            "node",
            "create",
            "--tcp-listener-address",
            "127.0.0.1:4000",
            "--foreground",
            "--child-process",
            "n1",
        ])
    );
}

#[test]
fn spawn_node_with_everything() {
    let args = spawn_node(
        3,
        true,
        "n1",
        "127.0.0.1:4000",
        Some("/p/project.json"),
        Some("{\"a\":1}"),
        Some("/p/ids.json"),
        Some("/p/reload.json"),
        Some("{\"launch\":true}"),
        Some("authority"),
        Some("cred"),
        Some("/p/trust.json"),
        Some("default"),
        true,
    );
    assert_eq!(
        args,
        strings(&[
            "-vvv",
            "node",
            "create",
            "--tcp-listener-address",
            "127.0.0.1:4000",
            "--foreground",
            "--child-process",
            "--no-color",
            "--project-path",
            "/p/project.json",
            "--launch-config",
            "{\"launch\":true}",
            "--trusted-identities",
            "{\"a\":1}",
            "--authority-identity",
            "authority",
            "--credential",
            "cred",
            "--trust-context",
            "/p/trust.json",
            "--project",
            "default",
            "n1",
        ])
    );
}

#[test]
fn spawn_node_hands_on_only_the_first_source_of_trusted_identities() {
    let base = |ids, file, reload| {
        spawn_node(
            1, true, "n", "a", None, ids, file, reload, None, None, None, None, None, false,
        )
    };
    let head = ["-v", "node", "create", "--tcp-listener-address", "a", "--foreground", "--child-process"];
    let with = |tail: &[&str]| {
        let mut all = strings(&head);
        all.extend(strings(tail));
        all.push("n".to_string());
        all
    };
    assert_eq!(
        base(None, Some("f"), Some("r")),
        with(&["--trusted-identities-file", "f"])
    );
    assert_eq!(
        base(None, None, Some("r")),
        with(&["--reload-from-trusted-identities-file", "r"])
    );
    assert_eq!(
        base(Some("i"), None, Some("r")),
        with(&["--trusted-identities", "i"])
    );
    assert_eq!(base(None, None, None), with(&[]));
}

#[test]
fn spawn_node_switches_colours_off_without_a_terminal_or_with_a_log_file() {
    let colours = |is_tty, logging_to_file| {
        spawn_node(
            0, is_tty, "n", "a", None, None, None, None, None, None, None, None, None,
            logging_to_file,
        )
        .contains(&"--no-color".to_string())
    };
    assert!(!colours(true, false));
    assert!(colours(false, false));
    assert!(colours(true, true));
    assert!(colours(false, true));
}

#[test]
fn spawn_node_repeats_v_once_per_level() {
    let flag = |verbose| {
        spawn_node(
            verbose, true, "n", "a", None, None, None, None, None, None, None, None, None, false,
        )[0]
        .clone()
    };
    assert_eq!(flag(0), "-vv");
    assert_eq!(flag(1), "-v");
    assert_eq!(flag(2), "-vv");
    assert_eq!(flag(255), format!("-{}", "v".repeat(255)));
}

#[test]
fn check_default_compares_with_the_default_node() {
    assert!(check_default(Some("n1"), "n1"));
    assert!(!check_default(Some("n1"), "n2"));
    assert!(!check_default(Some("n1"), "n"));
    assert!(!check_default(None, "n1"));
    assert!(!check_default(None, ""));
    assert!(check_default(Some(""), ""));
    assert!(same_text("a", "a"));
    assert!(!same_text("a", "b"));
}

#[test]
fn delete_all_nodes_reports_every_failure_in_order() {
    assert_eq!(delete_all_nodes(vec![]), Ok(()));
    let fine = |name: &str| Deletion { name: name.to_string(), error: None };
    let failed = |name: &str, error: &str| Deletion {
        name: name.to_string(),
        error: Some(error.to_string()),
    };
    assert_eq!(delete_all_nodes(vec![fine("a"), fine("b")]), Ok(()));
    assert_eq!(
        delete_all_nodes(vec![
            failed("a", "busy"),
            fine("b"),
            failed("c", "no such process"),
        ]),
        Err(vec![
            ("a".to_string(), "busy".to_string()),
            ("c".to_string(), "no such process".to_string()),
        ])
    );
}

#[test]
fn embedded_node_setup_prefers_the_trust_options() {
    let setup = embedded_node_setup(false, Some("/default"), None);
    assert!(setup.init_node_state);
    assert_eq!(setup.project_path, Some("/default".to_string()));
    assert!(!setup.build_trust_context);

    let opts = TrustContextOpts { project_path: Some("/trusted".to_string()) };
    let setup = embedded_node_setup(true, Some("/default"), Some(&opts));
    assert!(!setup.init_node_state);
    assert_eq!(setup.project_path, Some("/trusted".to_string()));
    assert!(setup.build_trust_context);

    let opts = TrustContextOpts { project_path: None };
    let setup = embedded_node_setup(false, Some("/default"), Some(&opts));
    assert_eq!(setup.project_path, None);
    assert!(setup.build_trust_context);
    assert_eq!(embedded_node_setup(false, None, None).project_path, None);
}

#[test]
fn embedded_node_opens_only_its_manager_to_the_listener() {
    let mut node = Node::new();
    let flow = FlowControlId::new("listener-flow");
    let _secret = node.spawn_worker((), Address::local("secret")).unwrap();
    let manager = start_embedded_node(&mut node, &flow, "manager").unwrap();
    assert_eq!(manager.address(), &Address::local(NODEMANAGER_ADDR));
    assert_eq!(NODEMANAGER_ADDR, "_internal.nodemanager");
    assert_eq!(*manager.worker(), "manager");
    assert_eq!(
        node.flow_controls()
            .policy(&Address::local(NODEMANAGER_ADDR), &flow),
        Some(SpawnerFlowControlPolicy::AllowMultipleMessages)
    );

    let to = |name: &str| {
        RelayMessage::new(
            b"request".to_vec(),
            Route::from_hops(vec![Address::local(name)]),
            Route::new(),
        )
        .with_flow(flow.clone())
    };
    assert_eq!(
        node.route(to(NODEMANAGER_ADDR)),
        RouteOutcome::Delivered(Address::local(NODEMANAGER_ADDR))
    );
    assert_eq!(
        node.route(to(NODEMANAGER_ADDR)),
        RouteOutcome::Delivered(Address::local(NODEMANAGER_ADDR))
    );
    assert_eq!(
        node.route(to("secret")),
        RouteOutcome::Undeliverable(UndeliverableReason::Denied, Route::new())
    );
    assert_eq!(
        start_embedded_node(&mut node, &flow, "again").err(),
        Some(RouterError::DuplicateAddress)
    );
}

#[test]
fn delete_command_runs_only_when_confirmed() {
    let cmd = DeleteCommand::new("db", Some("n1"), false);
    assert_eq!(cmd.alias(), "db");
    assert_eq!(cmd.at_node(), Some("n1"));
    assert!(!cmd.yes());
    assert_eq!(cmd.node_name("default"), "n1");
    assert_eq!(cmd.run(false, "n1"), None);

    let cmd = DeleteCommand::new("db", None, false);
    assert_eq!(cmd.at_node(), None);
    assert_eq!(cmd.node_name("default"), "default");
    let deletion = cmd.run(true, "default").unwrap();
    assert_eq!(deletion.alias, "db");
    assert_eq!(deletion.node, "default");
    assert_eq!(deletion.request_path, "/node/outlet/db");
    assert_eq!(
        deletion.message,
        "TCP outlet with alias db on node default has been deleted."
    );

    let cmd = DeleteCommand::new("web", Some("n2"), true);
    assert!(cmd.yes());
    let deletion = cmd.run(false, "n2").unwrap();
    assert_eq!(deletion.request_path, "/node/outlet/web");
    assert_eq!(
        deletion.message,
        "TCP outlet with alias web on node n2 has been deleted."
    );
}
