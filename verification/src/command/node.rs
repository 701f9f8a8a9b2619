//! Decisions behind the commands that start and delete nodes. Reading the
//! node store, starting processes and killing them is left to the caller;
//! what is computed from their results is here.

use crate::address::{Address, AddressView, LOCAL};
use crate::flow_control::{FlowControlsView, SpawnerFlowControlPolicy};
use crate::message::FlowControlId;
use crate::node::{Node, NodeView};
use crate::relay::lifecycle::{ActorKind, RelayState};
use crate::relay::worker_relay::WorkerRelay;
use crate::router::RouterError;
use vstd::prelude::*;
use vstd::string::*;

verus! {

/// The flag that hands the caller's verbosity on to a child node: `-vv` when
/// none was asked for, else a dash followed by one `v` per level.
pub open spec fn verbosity_flag(verbose: u8) -> Seq<char> {
    if verbose == 0 {
        "-vv"@
    } else {
        "-"@ + Seq::new(verbose as nat, |i: int| 'v')
    }
}

/// A flag followed by its value, or nothing when the value is absent.
pub open spec fn flag_with(flag: Seq<char>, value: Option<Seq<char>>) -> Seq<Seq<char>> {
    match value {
        Some(v) => seq![flag, v],
        None => Seq::empty(),
    }
}

/// Of the three ways to name trusted identities only the first one given is
/// handed on: the list itself, then the file, then the file to reload from.
pub open spec fn trusted_identities_args(
    trusted_identities: Option<Seq<char>>,
    trusted_identities_file: Option<Seq<char>>,
    reload_from_trusted_identities_file: Option<Seq<char>>,
) -> Seq<Seq<char>> {
    if trusted_identities is Some {
        flag_with("--trusted-identities"@, trusted_identities)
    } else if trusted_identities_file is Some {
        flag_with("--trusted-identities-file"@, trusted_identities_file)
    } else {
        flag_with("--reload-from-trusted-identities-file"@, reload_from_trusted_identities_file)
    }
}

/// The view of an optional string.
pub open spec fn opt_view(s: Option<&str>) -> Option<Seq<char>> {
    match s {
        Some(v) => Some(v@),
        None => None,
    }
}

/// Everything that shapes the command line of a child node.
pub struct SpawnNodeView {
    pub verbose: u8,
    pub is_tty: bool,
    pub name: Seq<char>,
    pub address: Seq<char>,
    pub project: Option<Seq<char>>,
    pub trusted_identities: Option<Seq<char>>,
    pub trusted_identities_file: Option<Seq<char>>,
    pub reload_from_trusted_identities_file: Option<Seq<char>>,
    pub launch_config: Option<Seq<char>>,
    pub authority_identity: Option<Seq<char>>,
    pub credential: Option<Seq<char>>,
    pub trust_context: Option<Seq<char>>,
    pub project_name: Option<Seq<char>>,
    pub logging_to_file: bool,
}

/// The arguments with which a node is started in the foreground as a child
/// process, in the order in which they are given.
pub open spec fn spawn_node_args(o: SpawnNodeView) -> Seq<Seq<char>> {
    seq![
        verbosity_flag(o.verbose),
        "node"@,
        "create"@,
        "--tcp-listener-address"@,
        o.address,
        "--foreground"@,
        "--child-process"@,
    ] + (if o.logging_to_file || !o.is_tty {
        seq!["--no-color"@]
    } else {
        Seq::empty()
    }) + flag_with("--project-path"@, o.project) + flag_with("--launch-config"@, o.launch_config)
        + trusted_identities_args(
        o.trusted_identities,
        o.trusted_identities_file,
        o.reload_from_trusted_identities_file,
    ) + flag_with("--authority-identity"@, o.authority_identity) + flag_with(
        "--credential"@,
        o.credential,
    ) + flag_with("--trust-context"@, o.trust_context) + flag_with("--project"@, o.project_name)
        + seq![o.name]
}

fn verbosity(verbose: u8) -> (flag: String)
    ensures
        flag@ == verbosity_flag(verbose),
{
    if verbose == 0 {
        String::from_str("-vv")
    } else {
        let mut flag = String::from_str("-");
        let mut i: u8 = 0;
        while i < verbose
            invariant
                i <= verbose,
                flag@ == "-"@ + Seq::new(i as nat, |k: int| 'v'),
            decreases verbose - i,
        {
            proof {
                reveal_strlit("v");
            }
            flag.append("v");
            i = i + 1;
        }
        flag
    }
}

fn push_arg(args: &mut Vec<String>, arg: &str)
    ensures
        final(args).deep_view() == old(args).deep_view().push(arg@),
{
    args.push(String::from_str(arg));
}

fn push_flag(args: &mut Vec<String>, flag: &str, value: Option<&str>)
    ensures
        final(args).deep_view() == old(args).deep_view() + flag_with(flag@, opt_view(value)),
{
    match value {
        Some(v) => {
            push_arg(args, flag);
            push_arg(args, v);
        },
        None => {},
    }
}

/// The command line that starts node `name` in the foreground as a child
/// process listening on `address`. Colours are switched off when the output
/// goes to a file or to no terminal.
pub fn spawn_node(
    verbose: u8,
    is_tty: bool,
    name: &str,
    address: &str,
    project: Option<&str>,
    trusted_identities: Option<&str>,
    trusted_identities_file: Option<&str>,
    reload_from_trusted_identities_file: Option<&str>,
    launch_config: Option<&str>,
    authority_identity: Option<&str>,
    credential: Option<&str>,
    trust_context: Option<&str>,
    project_name: Option<&str>,
    logging_to_file: bool,
) -> (args: Vec<String>)
    ensures
        args.deep_view() == spawn_node_args(
            SpawnNodeView {
                verbose,
                is_tty,
                name: name@,
                address: address@,
                project: opt_view(project),
                trusted_identities: opt_view(trusted_identities),
                trusted_identities_file: opt_view(trusted_identities_file),
                reload_from_trusted_identities_file: opt_view(reload_from_trusted_identities_file),
                launch_config: opt_view(launch_config),
                authority_identity: opt_view(authority_identity),
                credential: opt_view(credential),
                trust_context: opt_view(trust_context),
                project_name: opt_view(project_name),
                logging_to_file,
            },
        ),
{
    let mut args: Vec<String> = Vec::new();
    args.push(verbosity(verbose));
    push_arg(&mut args, "node");
    push_arg(&mut args, "create");
    push_arg(&mut args, "--tcp-listener-address");
    push_arg(&mut args, address);
    push_arg(&mut args, "--foreground");
    push_arg(&mut args, "--child-process");
    let ghost head = args.deep_view();
    if logging_to_file || !is_tty {
        push_arg(&mut args, "--no-color");
    } else {
        assert(args.deep_view() =~= head + Seq::<Seq<char>>::empty());
    }
    push_flag(&mut args, "--project-path", project);
    push_flag(&mut args, "--launch-config", launch_config);
    if trusted_identities.is_some() {
        push_flag(&mut args, "--trusted-identities", trusted_identities);
    } else if trusted_identities_file.is_some() {
        push_flag(&mut args, "--trusted-identities-file", trusted_identities_file);
    } else {
        push_flag(
            &mut args,
            "--reload-from-trusted-identities-file",
            reload_from_trusted_identities_file,
        );
    }
    push_flag(&mut args, "--authority-identity", authority_identity);
    push_flag(&mut args, "--credential", credential);
    push_flag(&mut args, "--trust-context", trust_context);
    push_flag(&mut args, "--project", project_name);
    push_arg(&mut args, name);
    args
}

/// Whether two pieces of text are the same.
pub fn same_text(a: &str, b: &str) -> (res: bool)
    ensures
        res == (a@ == b@),
{
    String::from_str(a) == String::from_str(b)
}

/// Whether `name` is the name of the default node. `default` is the name
/// that the node store gives for the default node, or nothing where it has
/// none or could not be read.
pub fn check_default(default: Option<&str>, name: &str) -> (res: bool)
    ensures
        res == (opt_view(default) == Some(name@)),
{
    match default {
        Some(default) => same_text(default, name),
        None => false,
    }
}

/// How the deletion of one node went: its name, and the error where it
/// failed.
pub struct Deletion {
    pub name: String,
    pub error: Option<String>,
}

/// A deletion as plain values.
pub struct DeletionView {
    pub name: Seq<char>,
    pub error: Option<Seq<char>>,
}

impl View for Deletion {
    type V = DeletionView;

    open spec fn view(&self) -> DeletionView {
        DeletionView {
            name: self.name@,
            error: match self.error {
                Some(e) => Some(e@),
                None => None,
            },
        }
    }
}

/// The deletions of a sequence, as plain values.
pub open spec fn deletions_view(deletions: Seq<Deletion>) -> Seq<DeletionView> {
    deletions.map_values(|d: Deletion| d@)
}

/// The nodes that could not be deleted, each with its error, in the order
/// in which they were tried.
pub open spec fn deletion_errors(deletions: Seq<DeletionView>) -> Seq<(Seq<char>, Seq<char>)>
    decreases deletions.len(),
{
    if deletions.len() == 0 {
        Seq::empty()
    } else {
        let before = deletion_errors(deletions.drop_last());
        match deletions.last().error {
            Some(e) => before.push((deletions.last().name, e)),
            None => before,
        }
    }
}

/// The view of a list of names with errors.
pub open spec fn errors_view(errors: Seq<(String, String)>) -> Seq<(Seq<char>, Seq<char>)> {
    errors.map_values(|e: (String, String)| (e.0@, e.1@))
}

/// Sums up the deletion of all nodes. Every node is tried, whether or not
/// an earlier one failed; the whole has failed if one of them did, and the
/// error names each node that is still there with what went wrong.
pub fn delete_all_nodes(deletions: Vec<Deletion>) -> (res: Result<(), Vec<(String, String)>>)
    ensures
        match res {
            Ok(()) => deletion_errors(deletions_view(deletions@)).len() == 0,
            Err(errors) => {
                &&& errors@.len() > 0
                &&& errors_view(errors@) == deletion_errors(deletions_view(deletions@))
            },
        },
{
    let mut deletion_errors: Vec<(String, String)> = Vec::new();
    let mut i: usize = 0;
    let ghost all = deletions_view(deletions@);
    while i < deletions.len()
        invariant
            i <= deletions.len(),
            all == deletions_view(deletions@),
            errors_view(deletion_errors@) == self::deletion_errors(all.take(i as int)),
        decreases deletions.len() - i,
    {
        proof {
            assert(all.take(i + 1).drop_last() =~= all.take(i as int));
        }
        match &deletions[i].error {
            Some(e) => {
                deletion_errors.push((deletions[i].name.clone(), e.clone()));
            },
            None => {},
        }
        i = i + 1;
    }
    assert(all.take(i as int) =~= all);
    if deletion_errors.len() > 0 {
        Err(deletion_errors)
    } else {
        Ok(())
    }
}

/// What of the trust options the start of an embedded node reads.
pub struct TrustContextOpts {
    /// Where the description of the project lies, if one was given.
    pub project_path: Option<String>,
}

/// What is to be done before an embedded node can start.
pub struct EmbeddedNodeSetup {
    /// Whether the state of the node has yet to be initialized.
    pub init_node_state: bool,
    /// The description of the project that is entered into the node's state.
    pub project_path: Option<String>,
    /// Whether a trust context is built from the trust options.
    pub build_trust_context: bool,
}

/// What is to be done before an embedded node can start, as plain values.
pub struct EmbeddedNodeSetupView {
    pub init_node_state: bool,
    pub project_path: Option<Seq<char>>,
    pub build_trust_context: bool,
}

impl View for EmbeddedNodeSetup {
    type V = EmbeddedNodeSetupView;

    open spec fn view(&self) -> EmbeddedNodeSetupView {
        EmbeddedNodeSetupView {
            init_node_state: self.init_node_state,
            project_path: match self.project_path {
                Some(p) => Some(p@),
                None => None,
            },
            build_trust_context: self.build_trust_context,
        }
    }
}

/// The path of an optional piece of text that is owned.
pub open spec fn path_view(path: Option<String>) -> Option<Seq<char>> {
    match path {
        Some(p) => Some(p@),
        None => None,
    }
}

/// Decides what is to be done before an embedded node can start. A node
/// that runs as a child process finds its state initialized. The project is
/// taken from the trust options where there are any, else from
/// `default_project_path`; a trust context is built only from trust options.
pub fn embedded_node_setup(
    child_process: bool,
    default_project_path: Option<&str>,
    trust_opts: Option<&TrustContextOpts>,
) -> (res: EmbeddedNodeSetup)
    ensures
        res@ == (EmbeddedNodeSetupView {
            init_node_state: !child_process,
            project_path: match trust_opts {
                Some(t) => path_view(t.project_path),
                None => opt_view(default_project_path),
            },
            build_trust_context: trust_opts is Some,
        }),
{
    let project_path = match trust_opts {
        Some(t) => match &t.project_path {
            Some(p) => Some(p.clone()),
            None => None,
        },
        None => match default_project_path {
            Some(p) => Some(String::from_str(p)),
            None => None,
        },
    };
    EmbeddedNodeSetup {
        init_node_state: !child_process,
        project_path,
        build_trust_context: trust_opts.is_some(),
    }
}

/// The name under which the manager of a node lives on it.
pub const NODEMANAGER_ADDR: &'static str = "_internal.nodemanager";

/// The address at which the manager of a node lives.
pub open spec fn node_manager_address() -> AddressView {
    AddressView { transport: LOCAL, value: NODEMANAGER_ADDR@ }
}

/// Brings up the manager of an embedded node: it is authorized for what
/// comes in through the node's listener, whose flow is `listener_flow`, and
/// then spawned at its address. No other actor becomes reachable from
/// outside by this. Where an actor lives at the manager's address already,
/// the authorization stands and nothing is spawned.
pub fn start_embedded_node<W>(node: &mut Node, listener_flow: &FlowControlId, node_manager: W) -> (res:
    Result<WorkerRelay<W>, RouterError>)
    requires
        old(node).wf(),
    ensures
        final(node).wf(),
        ({
            let authorized = NodeView {
                flows: FlowControlsView {
                    consumers: old(node)@.flows.consumers.insert(
                        (node_manager_address(), listener_flow@),
                        SpawnerFlowControlPolicy::AllowMultipleMessages,
                    ),
                    ..old(node)@.flows
                },
                ..old(node)@
            };
            match res {
                Ok(relay) => {
                    &&& !old(node)@.mailboxes.contains_key(node_manager_address())
                    &&& relay.wf()
                    &&& relay@ == RelayState::initial(ActorKind::Worker)
                    &&& relay.relay() == node_manager_address()
                    &&& relay.actor() == node_manager
                    &&& final(node)@ == (NodeView {
                        mailboxes: authorized.mailboxes.insert(
                            node_manager_address(),
                            Seq::empty(),
                        ),
                        stoppable: authorized.stoppable.insert(node_manager_address()),
                        ..authorized
                    })
                },
                Err(RouterError::DuplicateAddress) => {
                    &&& old(node)@.mailboxes.contains_key(node_manager_address())
                    &&& final(node)@ == authorized
                },
            }
        }),
{
    node.add_consumer_for_spawner(
        Address::local(NODEMANAGER_ADDR),
        listener_flow,
        SpawnerFlowControlPolicy::AllowMultipleMessages,
    );
    node.spawn_worker(node_manager, Address::local(NODEMANAGER_ADDR))
}

} // verus!
