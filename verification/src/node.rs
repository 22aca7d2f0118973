//! The kind of node that is assembled, what its stages are handed, and what
//! an assembly yields.

use vstd::prelude::*;

verus! {

/// The kind of node that is assembled. It fixes the types that every stage
/// of such a node agrees on; a value of it is never made.
pub trait FullNodeTypes {
    /// The configuration that the caller hands to every stage.
    type Config;

    /// The handle to a running network.
    type NetworkHandle;

    /// The handle to a running payload service.
    type PayloadBuilderHandle;
}

/// What every stage is handed by reference. It belongs to the caller, and
/// the library reads nothing in it.
pub struct BuilderContext<Node: FullNodeTypes> {
    /// The caller's configuration.
    pub config: Node::Config,
}

/// The components of a node, all three of them: an assembly hands them out
/// together, where every stage has succeeded, or not at all.
pub struct NodeComponents<Node: FullNodeTypes, Pool> {
    /// The transaction pool.
    pub transaction_pool: Pool,
    /// The handle to the network.
    pub network: Node::NetworkHandle,
    /// The handle to the payload service.
    pub payload_builder: Node::PayloadBuilderHandle,
}

} // verus!
