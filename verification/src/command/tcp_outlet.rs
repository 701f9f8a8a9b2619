//! The command that deletes a TCP outlet.

use crate::command::node::opt_view;
use vstd::prelude::*;
use vstd::string::*;

verus! {

/// The node that a command is about.
#[derive(Debug, PartialEq, Eq)]
pub struct NodeOpts {
    /// The name of the node, or nothing for the default node.
    pub at_node: Option<String>,
}

/// Delete a TCP Outlet
#[derive(Debug, PartialEq, Eq)]
pub struct DeleteCommand {
    /// Name assigned to outlet that will be deleted
    alias: String,
    /// Node on which to stop the tcp outlet. If none are provided, the default node will be used
    node_opts: NodeOpts,
    /// Confirm the deletion without prompting
    yes: bool,
}

/// The command as plain values.
pub struct DeleteCommandView {
    pub alias: Seq<char>,
    pub at_node: Option<Seq<char>>,
    pub yes: bool,
}

impl View for DeleteCommand {
    type V = DeleteCommandView;

    closed spec fn view(&self) -> DeleteCommandView {
        DeleteCommandView {
            alias: self.alias@,
            at_node: match self.node_opts.at_node {
                Some(n) => Some(n@),
                None => None,
            },
            yes: self.yes,
        }
    }
}

/// What deleting an outlet comes to.
#[derive(Debug, PartialEq, Eq)]
pub struct OutletDeletion {
    /// The alias of the outlet.
    pub alias: String,
    /// The node that the outlet runs on.
    pub node: String,
    /// The path of the request that deletes the outlet on its node.
    pub request_path: String,
    /// What to tell the user once the request has gone through.
    pub message: String,
}

/// The path of the request that deletes the outlet `alias`.
pub open spec fn delete_request_path(alias: Seq<char>) -> Seq<char> {
    "/node/outlet/"@ + alias
}

/// What the user is told once the outlet `alias` on `node` is deleted.
pub open spec fn deleted_message(alias: Seq<char>, node: Seq<char>) -> Seq<char> {
    "TCP outlet with alias "@ + alias + " on node "@ + node + " has been deleted."@
}

impl OutletDeletion {
    /// Everything is about the outlet `alias` on `node`.
    pub open spec fn is_for(&self, alias: Seq<char>, node: Seq<char>) -> bool {
        &&& self.alias@ == alias
        &&& self.node@ == node
        &&& self.request_path@ == delete_request_path(alias)
        &&& self.message@ == deleted_message(alias, node)
    }
}

impl DeleteCommand {
    /// The command to delete the outlet `alias` on the node `at_node`, or on
    /// the default node where none is named.
    pub fn new(alias: &str, at_node: Option<&str>, yes: bool) -> (res: Self)
        ensures
            res@ == (DeleteCommandView { alias: alias@, at_node: opt_view(at_node), yes }),
    {
        let at_node = match at_node {
            Some(n) => Some(String::from_str(n)),
            None => None,
        };
        DeleteCommand { alias: String::from_str(alias), node_opts: NodeOpts { at_node }, yes }
    }

    /// The alias of the outlet.
    pub fn alias(&self) -> (res: &str)
        ensures
            res@ == self@.alias,
    {
        self.alias.as_str()
    }

    /// The node that was named, if one was.
    pub fn at_node(&self) -> (res: Option<&str>)
        ensures
            opt_view(res) == self@.at_node,
    {
        match &self.node_opts.at_node {
            Some(n) => Some(n.as_str()),
            None => None,
        }
    }

    /// Whether the user said beforehand that the outlet is to be deleted,
    /// so that nobody needs to be asked.
    pub fn yes(&self) -> (res: bool)
        ensures
            res == self@.yes,
    {
        self.yes
    }

    /// The name of the node that the command is about: the one named, else
    /// `default_node`.
    pub fn node_name(&self, default_node: &str) -> (res: String)
        ensures
            res@ == (match self@.at_node {
                Some(n) => n,
                None => default_node@,
            }),
    {
        match &self.node_opts.at_node {
            Some(n) => n.clone(),
            None => String::from_str(default_node),
        }
    }

    /// Runs the command as far as it can be decided here. The outlet is
    /// deleted only if the user has said so, by the flag or, asked,
    /// by `confirmed`; then what comes back says which request deletes the
    /// outlet on `node` and what to report afterwards. Else nothing is to be
    /// done.
    pub fn run(self, confirmed: bool, node: &str) -> (res: Option<OutletDeletion>)
        ensures
            match res {
                Some(deletion) => (self@.yes || confirmed) && deletion.is_for(self@.alias, node@),
                None => !(self@.yes || confirmed),
            },
    {
        if self.yes || confirmed {
            let mut request_path = String::from_str("/node/outlet/");
            request_path.append(self.alias.as_str());
            let mut message = String::from_str("TCP outlet with alias ");
            message.append(self.alias.as_str());
            message.append(" on node ");
            message.append(node);
            message.append(" has been deleted.");
            Some(
                OutletDeletion {
                    alias: self.alias,
                    node: String::from_str(node),
                    request_path,
                    message,
                },
            )
        } else {
            None
        }
    }
}

} // verus!
