//! Listing of TCP inlet port mappings: the decision part of the `list`
//! command.
//!
//! Fetching the inlet list from the node over RPC, rendering routes as
//! multiaddress strings and printing are edge concerns; what is decided
//! here is what the command reports: an error when the node has no
//! inlets, and otherwise every fetched inlet, in order, with its alias,
//! bind address and — when the node handed one over — its rendered
//! outlet address.

use vstd::prelude::*;

verus! {

/// One inlet as fetched from the node: its alias, the TCP address it
/// binds, and its outlet address if the outlet route could be rendered.
#[derive(Debug)]
pub struct InletInfo {
    pub alias: Vec<u8>,
    pub bind_addr: Vec<u8>,
    pub outlet_addr: Option<Vec<u8>>,
}

/// The node's answer to an inlet listing request.
pub struct InletList {
    pub list: Vec<InletInfo>,
}

/// Why a listing produced no report.
#[derive(Clone, Copy, PartialEq, Eq, Structural, Debug)]
pub enum ListError {
    /// The node has no inlets configured.
    NoInlets,
}

/// List TCP inlets of a node.
pub struct ListCommand {
    /// The node to query, when not the default one.
    pub node: Option<Vec<u8>>,
}

impl ListCommand {
    /// Decides the command's report from the fetched inlet list: an
    /// empty list is an error, any other list is reported in full and
    /// in order.
    pub fn run(self, response: InletList) -> (r: Result<Vec<InletInfo>, ListError>)
        ensures
            match r {
                Ok(rows) => response.list@.len() > 0 && rows@ == response.list@,
                Err(e) => response.list@.len() == 0 && e == ListError::NoInlets,
            },
    {
        if response.list.len() == 0 {
            Err(ListError::NoInlets)
        } else {
            Ok(response.list)
        }
    }
}

} // verus!
