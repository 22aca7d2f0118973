//! What a builder must offer to stand for one component of a node.
//!
//! There is one trait for each component. A builder is used up by the one
//! call that runs its stage. A function or closure with the signature of a
//! stage is a builder for it.
//!
//! Each trait lets a builder say, for the proofs of its callers, when it
//! may be run and what it may return. A builder that says nothing may
//! always be run and may return anything.

use vstd::prelude::*;
use crate::node::{BuilderContext, FullNodeTypes};

verus! {

/// Builds the transaction pool, the component that the other two are built
/// on.
pub trait PoolBuilder<Node: FullNodeTypes>: Sized {
    /// The pool that is built. A clone of it is a second handle to the same
    /// pool, which later stages are handed.
    type Pool: Clone;

    /// Whether the builder may be run in `ctx`.
    open spec fn can_build_pool(self, ctx: &BuilderContext<Node>) -> bool {
        true
    }

    /// Whether `out` is something that the builder may return when it is
    /// run in `ctx`.
    open spec fn builds_pool(
        self,
        ctx: &BuilderContext<Node>,
        out: Result<Self::Pool, eyre::Report>,
    ) -> bool {
        true
    }

    /// Builds the pool, or fails with a cause.
    fn build_pool(self, ctx: &BuilderContext<Node>) -> (out: Result<Self::Pool, eyre::Report>)
        requires
            self.can_build_pool(ctx),
        ensures
            self.builds_pool(ctx, out),
    ;
}

/// Builds the network on a handle to a pool that is up.
pub trait NetworkBuilder<Node: FullNodeTypes, Pool>: Sized {
    /// Whether the builder may be run in `ctx` on `pool`.
    open spec fn can_build_network(self, ctx: &BuilderContext<Node>, pool: Pool) -> bool {
        true
    }

    /// Whether `out` is something that the builder may return when it is
    /// run in `ctx` on `pool`.
    open spec fn builds_network(
        self,
        ctx: &BuilderContext<Node>,
        pool: Pool,
        out: Result<Node::NetworkHandle, eyre::Report>,
    ) -> bool {
        true
    }

    /// Builds the network, or fails with a cause.
    fn build_network(self, ctx: &BuilderContext<Node>, pool: Pool) -> (out: Result<
        Node::NetworkHandle,
        eyre::Report,
    >)
        requires
            self.can_build_network(ctx, pool),
        ensures
            self.builds_network(ctx, pool, out),
    ;
}

/// Starts the payload service on a handle to a pool that is up.
pub trait PayloadServiceBuilder<Node: FullNodeTypes, Pool>: Sized {
    /// Whether the builder may be run in `ctx` on `pool`.
    open spec fn can_spawn_payload_service(self, ctx: &BuilderContext<Node>, pool: Pool) -> bool {
        true
    }

    /// Whether `out` is something that the builder may return when it is
    /// run in `ctx` on `pool`.
    open spec fn spawns_payload_service(
        self,
        ctx: &BuilderContext<Node>,
        pool: Pool,
        out: Result<Node::PayloadBuilderHandle, eyre::Report>,
    ) -> bool {
        true
    }

    /// Starts the payload service, or fails with a cause.
    fn spawn_payload_service(self, ctx: &BuilderContext<Node>, pool: Pool) -> (out: Result<
        Node::PayloadBuilderHandle,
        eyre::Report,
    >)
        requires
            self.can_spawn_payload_service(ctx, pool),
        ensures
            self.spawns_payload_service(ctx, pool, out),
    ;
}

impl<Node, F, Pool> PoolBuilder<Node> for F where
    Node: FullNodeTypes,
    F: FnOnce(&BuilderContext<Node>) -> Result<Pool, eyre::Report>,
    Pool: Clone,
 {
    type Pool = Pool;

    open spec fn can_build_pool(self, ctx: &BuilderContext<Node>) -> bool {
        self.requires((ctx,))
    }

    open spec fn builds_pool(
        self,
        ctx: &BuilderContext<Node>,
        out: Result<Pool, eyre::Report>,
    ) -> bool {
        self.ensures((ctx,), out)
    }

    /// Calls the function: it returns what the function returns.
    fn build_pool(self, ctx: &BuilderContext<Node>) -> (out: Result<Pool, eyre::Report>)
        ensures
            self.ensures((ctx,), out),
    {
        self(ctx)
    }
}

impl<Node, F, Pool> NetworkBuilder<Node, Pool> for F where
    Node: FullNodeTypes,
    F: FnOnce(&BuilderContext<Node>, Pool) -> Result<Node::NetworkHandle, eyre::Report>,
 {
    open spec fn can_build_network(self, ctx: &BuilderContext<Node>, pool: Pool) -> bool {
        self.requires((ctx, pool))
    }

    open spec fn builds_network(
        self,
        ctx: &BuilderContext<Node>,
        pool: Pool,
        out: Result<Node::NetworkHandle, eyre::Report>,
    ) -> bool {
        self.ensures((ctx, pool), out)
    }

    /// Calls the function: it returns what the function returns.
    fn build_network(self, ctx: &BuilderContext<Node>, pool: Pool) -> (out: Result<
        Node::NetworkHandle,
        eyre::Report,
    >)
        ensures
            self.ensures((ctx, pool), out),
    {
        self(ctx, pool)
    }
}

impl<Node, F, Pool> PayloadServiceBuilder<Node, Pool> for F where
    Node: FullNodeTypes,
    F: FnOnce(&BuilderContext<Node>, Pool) -> Result<Node::PayloadBuilderHandle, eyre::Report>,
 {
    open spec fn can_spawn_payload_service(self, ctx: &BuilderContext<Node>, pool: Pool) -> bool {
        self.requires((ctx, pool))
    }

    open spec fn spawns_payload_service(
        self,
        ctx: &BuilderContext<Node>,
        pool: Pool,
        out: Result<Node::PayloadBuilderHandle, eyre::Report>,
    ) -> bool {
        self.ensures((ctx, pool), out)
    }

    /// Calls the function: it returns what the function returns.
    fn spawn_payload_service(self, ctx: &BuilderContext<Node>, pool: Pool) -> (out: Result<
        Node::PayloadBuilderHandle,
        eyre::Report,
    >)
        ensures
            self.ensures((ctx, pool), out),
    {
        self(ctx, pool)
    }
}

/// A function that stands for a pool builder may be run where the function
/// may be called, and returns as a builder what it returns as a function.
pub proof fn law_function_builds_pool<Node, F, Pool>(f: F, ctx: &BuilderContext<Node>) where
    Node: FullNodeTypes,
    F: FnOnce(&BuilderContext<Node>) -> Result<Pool, eyre::Report>,
    Pool: Clone,

    ensures
        f.can_build_pool(ctx) == f.requires((ctx,)),
        forall|out: Result<Pool, eyre::Report>| #[trigger]
            f.builds_pool(ctx, out) == f.ensures((ctx,), out),
{
}

/// A function that stands for a network builder may be run where the
/// function may be called, and returns as a builder what it returns as a
/// function.
pub proof fn law_function_builds_network<Node, F, Pool>(f: F, ctx: &BuilderContext<Node>) where
    Node: FullNodeTypes,
    F: FnOnce(&BuilderContext<Node>, Pool) -> Result<Node::NetworkHandle, eyre::Report>,

    ensures
        forall|pool: Pool| #[trigger] f.can_build_network(ctx, pool) == f.requires((ctx, pool)),
        forall|pool: Pool, out: Result<Node::NetworkHandle, eyre::Report>| #[trigger]
            f.builds_network(ctx, pool, out) == f.ensures((ctx, pool), out),
{
}

/// A function that stands for a builder of the payload service may be run
/// where the function may be called, and returns as a builder what it
/// returns as a function.
pub proof fn law_function_spawns_payload_service<Node, F, Pool>(
    f: F,
    ctx: &BuilderContext<Node>,
) where
    Node: FullNodeTypes,
    F: FnOnce(&BuilderContext<Node>, Pool) -> Result<Node::PayloadBuilderHandle, eyre::Report>,

    ensures
        forall|pool: Pool| #[trigger]
            f.can_spawn_payload_service(ctx, pool) == f.requires((ctx, pool)),
        forall|pool: Pool, out: Result<Node::PayloadBuilderHandle, eyre::Report>| #[trigger]
            f.spawns_payload_service(ctx, pool, out) == f.ensures((ctx, pool), out),
{
}

} // verus!
