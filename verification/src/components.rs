//! The builder that collects one builder for each component of a node, and
//! the assembly of a node from what it holds.

use vstd::prelude::*;
use std::marker::PhantomData;
use crate::assembly::{Action, Assembly, StageOutput};
use crate::error::{AssemblyError, Stage};
use crate::node::{BuilderContext, FullNodeTypes, NodeComponents};
use crate::stages::{NetworkBuilder, PayloadServiceBuilder, PoolBuilder};

verus! {

/// Collects the builders of a node's components: one slot for the pool, one
/// for the payload service and one for the network.
///
/// A slot that has not been filled holds `()`, which builds nothing. The
/// slot for the pool can be filled at any time. The other two take a
/// builder only once the slot for the pool holds a [`PoolBuilder`], and the
/// builder that they take has to build on the pool of that very builder:
/// [`ComponentsBuilder::network`] and [`ComponentsBuilder::payload`] do not
/// exist on a builder without a pool.
///
/// `Node` names the kind of node that is assembled. No value of it is held.
#[derive(Debug)]
pub struct ComponentsBuilder<Node, PoolB, PayloadB, NetworkB> {
    pool_builder: PoolB,
    payload_builder: PayloadB,
    network_builder: NetworkB,
    _marker: PhantomData<Node>,
}

impl<Node, PoolB, PayloadB, NetworkB> ComponentsBuilder<Node, PoolB, PayloadB, NetworkB> {
    /// What the slot for the pool holds.
    pub closed spec fn pool_slot(self) -> PoolB {
        self.pool_builder
    }

    /// What the slot for the payload service holds.
    pub closed spec fn payload_slot(self) -> PayloadB {
        self.payload_builder
    }

    /// What the slot for the network holds.
    pub closed spec fn network_slot(self) -> NetworkB {
        self.network_builder
    }

    /// Names another kind of node. The three slots keep what they hold.
    pub fn node_types<Types>(self) -> (out: ComponentsBuilder<Types, PoolB, PayloadB, NetworkB>) where
        Types: FullNodeTypes,

        ensures
            out.pool_slot() == self.pool_slot(),
            out.payload_slot() == self.payload_slot(),
            out.network_slot() == self.network_slot(),
    {
        let Self { pool_builder, payload_builder, network_builder, _marker } = self;
        ComponentsBuilder { pool_builder, payload_builder, network_builder, _marker: PhantomData }
    }

    /// Puts in the slot for the pool what `f` makes of the builder in it.
    /// The other two slots keep what they hold.
    pub fn map_pool(self, f: impl FnOnce(PoolB) -> PoolB) -> (out: Self)
        requires
            f.requires((self.pool_slot(),)),
        ensures
            f.ensures((self.pool_slot(),), out.pool_slot()),
            out.payload_slot() == self.payload_slot(),
            out.network_slot() == self.network_slot(),
    {
        Self {
            pool_builder: f(self.pool_builder),
            payload_builder: self.payload_builder,
            network_builder: self.network_builder,
            _marker: self._marker,
        }
    }

    /// Puts in the slot for the payload service what `f` makes of the
    /// builder in it. The other two slots keep what they hold.
    pub fn map_payload(self, f: impl FnOnce(PayloadB) -> PayloadB) -> (out: Self)
        requires
            f.requires((self.payload_slot(),)),
        ensures
            out.pool_slot() == self.pool_slot(),
            f.ensures((self.payload_slot(),), out.payload_slot()),
            out.network_slot() == self.network_slot(),
    {
        Self {
            pool_builder: self.pool_builder,
            payload_builder: f(self.payload_builder),
            network_builder: self.network_builder,
            _marker: self._marker,
        }
    }

    /// Puts in the slot for the network what `f` makes of the builder in
    /// it. The other two slots keep what they hold.
    pub fn map_network(self, f: impl FnOnce(NetworkB) -> NetworkB) -> (out: Self)
        requires
            f.requires((self.network_slot(),)),
        ensures
            out.pool_slot() == self.pool_slot(),
            out.payload_slot() == self.payload_slot(),
            f.ensures((self.network_slot(),), out.network_slot()),
    {
        Self {
            pool_builder: self.pool_builder,
            payload_builder: self.payload_builder,
            network_builder: f(self.network_builder),
            _marker: self._marker,
        }
    }
}

impl<Node, PoolB, PayloadB, NetworkB> ComponentsBuilder<Node, PoolB, PayloadB, NetworkB> where
    Node: FullNodeTypes,
 {
    /// Fills the slot for the pool with `pool_builder`, in place of what it
    /// held. The other two slots keep what they hold.
    pub fn pool<PB>(self, pool_builder: PB) -> (out: ComponentsBuilder<
        Node,
        PB,
        PayloadB,
        NetworkB,
    >) where PB: PoolBuilder<Node>
        ensures
            out.pool_slot() == pool_builder,
            out.payload_slot() == self.payload_slot(),
            out.network_slot() == self.network_slot(),
    {
        let Self { pool_builder: _, payload_builder, network_builder, _marker } = self;
        ComponentsBuilder { pool_builder, payload_builder, network_builder, _marker }
    }
}

impl<Node, PoolB, PayloadB, NetworkB> ComponentsBuilder<Node, PoolB, PayloadB, NetworkB> where
    Node: FullNodeTypes,
    PoolB: PoolBuilder<Node>,
 {
    /// Fills the slot for the network with `network_builder`, in place of
    /// what it held. The other two slots keep what they hold.
    pub fn network<NB>(self, network_builder: NB) -> (out: ComponentsBuilder<
        Node,
        PoolB,
        PayloadB,
        NB,
    >) where NB: NetworkBuilder<Node, PoolB::Pool>
        ensures
            out.pool_slot() == self.pool_slot(),
            out.payload_slot() == self.payload_slot(),
            out.network_slot() == network_builder,
    {
        let Self { pool_builder, payload_builder, network_builder: _, _marker } = self;
        ComponentsBuilder { pool_builder, payload_builder, network_builder, _marker }
    }

    /// Fills the slot for the payload service with `payload_builder`, in
    /// place of what it held. The other two slots keep what they hold.
    pub fn payload<PB>(self, payload_builder: PB) -> (out: ComponentsBuilder<
        Node,
        PoolB,
        PB,
        NetworkB,
    >) where PB: PayloadServiceBuilder<Node, PoolB::Pool>
        ensures
            out.pool_slot() == self.pool_slot(),
            out.payload_slot() == payload_builder,
            out.network_slot() == self.network_slot(),
    {
        let Self { pool_builder, payload_builder: _, network_builder, _marker } = self;
        ComponentsBuilder { pool_builder, payload_builder, network_builder, _marker }
    }
}

impl Default for ComponentsBuilder<(), (), (), ()> {
    /// The builder in which no slot is filled.
    fn default() -> (out: Self)
        ensures
            out.pool_slot() == (),
            out.payload_slot() == (),
            out.network_slot() == (),
    {
        Self { pool_builder: (), payload_builder: (), network_builder: (), _marker: PhantomData }
    }
}

/// Something that knows how to build all the components of a node.
///
/// A [`ComponentsBuilder`] whose three slots are filled is one: it builds
/// the components stage by stage. A function or closure from the context to
/// the components, or to a failure, is one too: it builds them whatever way
/// it likes, and nothing is done with it but the one call.
pub trait NodeComponentsBuilder<Node: FullNodeTypes>: Sized {
    /// The transaction pool of the node.
    type Pool: Clone;

    /// Whether the builder may be run in `ctx`. A builder that says nothing
    /// may be run in any.
    open spec fn can_build_components(self, ctx: &BuilderContext<Node>) -> bool {
        true
    }

    /// Whether `out` is something that the builder may return when it is
    /// run in `ctx`. A builder that says nothing may return anything.
    open spec fn builds_components(
        self,
        ctx: &BuilderContext<Node>,
        out: Result<NodeComponents<Node, Self::Pool>, AssemblyError>,
    ) -> bool {
        true
    }

    /// Builds the components of the node: all three of them, or a failure.
    fn build_components(self, ctx: &BuilderContext<Node>) -> (out: Result<
        NodeComponents<Node, Self::Pool>,
        AssemblyError,
    >)
        requires
            self.can_build_components(ctx),
        ensures
            self.builds_components(ctx, out),
    ;
}

impl<Node, PoolB, PayloadB, NetworkB> ComponentsBuilder<Node, PoolB, PayloadB, NetworkB> where
    Node: FullNodeTypes,
    PoolB: PoolBuilder<Node>,
    NetworkB: NetworkBuilder<Node, PoolB::Pool>,
    PayloadB: PayloadServiceBuilder<Node, PoolB::Pool>,
 {
    /// Whether `out` is something that the network stage may return when it
    /// is handed a clone of `pool`.
    pub open spec fn network_on(
        self,
        ctx: &BuilderContext<Node>,
        pool: PoolB::Pool,
        out: Result<Node::NetworkHandle, eyre::Report>,
    ) -> bool {
        exists|handle: PoolB::Pool|
            #[trigger] cloned(pool, handle) && self.network_slot().builds_network(ctx, handle, out)
    }

    /// Whether `out` is something that the payload stage may return when it
    /// is handed a clone of `pool`.
    pub open spec fn payload_on(
        self,
        ctx: &BuilderContext<Node>,
        pool: PoolB::Pool,
        out: Result<Node::PayloadBuilderHandle, eyre::Report>,
    ) -> bool {
        exists|handle: PoolB::Pool|
            #[trigger] cloned(pool, handle) && self.payload_slot().spawns_payload_service(
                ctx,
                handle,
                out,
            )
    }

    /// Whether every stage may be run when its turn comes: the pool stage
    /// in `ctx`, the other two on any clone of any pool that the pool stage
    /// may return.
    pub open spec fn stages_can_run(self, ctx: &BuilderContext<Node>) -> bool {
        &&& self.pool_slot().can_build_pool(ctx)
        &&& forall|pool: PoolB::Pool, handle: PoolB::Pool|
            self.pool_slot().builds_pool(ctx, Ok(pool)) && #[trigger] cloned(pool, handle)
                ==> self.network_slot().can_build_network(ctx, handle)
        &&& forall|pool: PoolB::Pool, handle: PoolB::Pool|
            self.pool_slot().builds_pool(ctx, Ok(pool)) && #[trigger] cloned(pool, handle)
                ==> self.payload_slot().can_spawn_payload_service(ctx, handle)
    }

    /// Whether `out` is a possible outcome of the assembly in `ctx`.
    ///
    /// Components are those that the three stages returned, the second and
    /// the third stage each on a clone of the pool that the first one
    /// built. A failure carries the name and the cause of a stage that
    /// failed after every stage before it had succeeded.
    pub open spec fn assembles(
        self,
        ctx: &BuilderContext<Node>,
        out: Result<NodeComponents<Node, PoolB::Pool>, AssemblyError>,
    ) -> bool {
        match out {
            Ok(components) => {
                &&& self.pool_slot().builds_pool(ctx, Ok(components.transaction_pool))
                &&& self.network_on(ctx, components.transaction_pool, Ok(components.network))
                &&& self.payload_on(
                    ctx,
                    components.transaction_pool,
                    Ok(components.payload_builder),
                )
            },
            Err(error) => match error.stage {
                Stage::Pool => self.pool_slot().builds_pool(ctx, Err(error.cause)),
                Stage::Network => exists|pool: PoolB::Pool|
                    {
                        &&& self.pool_slot().builds_pool(ctx, Ok(pool))
                        &&& #[trigger] self.network_on(ctx, pool, Err(error.cause))
                    },
                Stage::Payload => exists|pool: PoolB::Pool, network: Node::NetworkHandle|
                    {
                        &&& self.pool_slot().builds_pool(ctx, Ok(pool))
                        &&& #[trigger] self.network_on(ctx, pool, Ok(network))
                        &&& #[trigger] self.payload_on(ctx, pool, Err(error.cause))
                    },
            },
        }
    }
}

impl<Node, PoolB, PayloadB, NetworkB> NodeComponentsBuilder<Node> for ComponentsBuilder<
    Node,
    PoolB,
    PayloadB,
    NetworkB,
> where
    Node: FullNodeTypes,
    PoolB: PoolBuilder<Node>,
    NetworkB: NetworkBuilder<Node, PoolB::Pool>,
    PayloadB: PayloadServiceBuilder<Node, PoolB::Pool>,
 {
    type Pool = PoolB::Pool;

    open spec fn can_build_components(self, ctx: &BuilderContext<Node>) -> bool {
        self.stages_can_run(ctx)
    }

    open spec fn builds_components(
        self,
        ctx: &BuilderContext<Node>,
        out: Result<NodeComponents<Node, PoolB::Pool>, AssemblyError>,
    ) -> bool {
        self.assembles(ctx, out)
    }

    /// Runs the three stages in their order: the pool, then the network on
    /// a clone of the pool, then the payload service on another clone. The
    /// first stage that fails ends the assembly: no stage runs after it,
    /// and what was built before it is dropped.
    fn build_components(self, ctx: &BuilderContext<Node>) -> (out: Result<
        NodeComponents<Node, PoolB::Pool>,
        AssemblyError,
    >)
        ensures
            self.assembles(ctx, out),
    {
        let Self { pool_builder, payload_builder, network_builder, _marker } = self;
        let mut assembly = Assembly::new();
        if let Action::BuildPool = assembly.next_action() {
            let built = pool_builder.build_pool(ctx);
            assembly = assembly.advance(StageOutput::Pool(built));
        }
        let ghost pool_built = assembly;
        if let Action::BuildNetwork(pool) = assembly.next_action() {
            let handle = pool.clone();
            assert(cloned(*pool, handle));
            let built = network_builder.build_network(ctx, handle);
            assert(self.network_on(ctx, *pool, built));
            assembly = assembly.advance(StageOutput::Network(built));
        }
        let ghost network_built = assembly;
        if let Action::SpawnPayload(pool) = assembly.next_action() {
            let handle = pool.clone();
            assert(cloned(*pool, handle));
            let built = payload_builder.spawn_payload_service(ctx, handle);
            assert(self.payload_on(ctx, *pool, built));
            assembly = assembly.advance(StageOutput::Payload(built));
        }
        let ghost end = assembly;
        proof {
            if let Assembly::Failed(error) = end {
                if let Assembly::AwaitingNetwork { pool } = pool_built {
                    if let Assembly::AwaitingPayload { network, .. } = network_built {
                        assert(self.network_on(ctx, pool, Ok(network)));
                        assert(self.payload_on(ctx, pool, Err(error.cause)));
                    } else {
                        assert(self.network_on(ctx, pool, Err(error.cause)));
                    }
                }
            }
        }
        assembly.finish()
    }
}

impl<Node, F, Pool> NodeComponentsBuilder<Node> for F where
    Node: FullNodeTypes,
    F: FnOnce(&BuilderContext<Node>) -> Result<NodeComponents<Node, Pool>, AssemblyError>,
    Pool: Clone,
 {
    type Pool = Pool;

    open spec fn can_build_components(self, ctx: &BuilderContext<Node>) -> bool {
        self.requires((ctx,))
    }

    open spec fn builds_components(
        self,
        ctx: &BuilderContext<Node>,
        out: Result<NodeComponents<Node, Pool>, AssemblyError>,
    ) -> bool {
        self.ensures((ctx,), out)
    }

    /// Calls the function, once: it returns what the function returns.
    fn build_components(self, ctx: &BuilderContext<Node>) -> (out: Result<
        NodeComponents<Node, Pool>,
        AssemblyError,
    >)
        ensures
            self.ensures((ctx,), out),
    {
        self(ctx)
    }
}

/// As a builder of all the components, a [`ComponentsBuilder`] may be run
/// where its stages can run, and returns what they assemble.
pub proof fn law_builder_assembles<Node, PoolB, PayloadB, NetworkB>(
    builder: ComponentsBuilder<Node, PoolB, PayloadB, NetworkB>,
    ctx: &BuilderContext<Node>,
) where
    Node: FullNodeTypes,
    PoolB: PoolBuilder<Node>,
    NetworkB: NetworkBuilder<Node, PoolB::Pool>,
    PayloadB: PayloadServiceBuilder<Node, PoolB::Pool>,

    ensures
        builder.can_build_components(ctx) == builder.stages_can_run(ctx),
        forall|out: Result<NodeComponents<Node, PoolB::Pool>, AssemblyError>| #[trigger]
            builder.builds_components(ctx, out) == builder.assembles(ctx, out),
{
}

/// A function that stands for a builder of all the components may be run
/// where the function may be called, and returns as a builder exactly what
/// it returns as a function: nothing is built or looked at besides.
pub proof fn law_function_builds_components<Node, F, Pool>(f: F, ctx: &BuilderContext<Node>) where
    Node: FullNodeTypes,
    F: FnOnce(&BuilderContext<Node>) -> Result<NodeComponents<Node, Pool>, AssemblyError>,
    Pool: Clone,

    ensures
        f.can_build_components(ctx) == f.requires((ctx,)),
        forall|out: Result<NodeComponents<Node, Pool>, AssemblyError>| #[trigger]
            f.builds_components(ctx, out) == f.ensures((ctx,), out),
{
}

impl<Node, PoolB, PayloadB, NetworkB> ComponentsBuilder<Node, PoolB, PayloadB, NetworkB> where
    Node: FullNodeTypes,
    PoolB: PoolBuilder<Node>,
    NetworkB: NetworkBuilder<Node, PoolB::Pool>,
    PayloadB: PayloadServiceBuilder<Node, PoolB::Pool>,
 {
    /// Where the pool stage can only fail, the assembly fails under the
    /// name of the pool, with a cause that the pool stage gave.
    pub proof fn law_pool_failure_fails_the_assembly(
        self,
        ctx: &BuilderContext<Node>,
        out: Result<NodeComponents<Node, PoolB::Pool>, AssemblyError>,
    )
        requires
            self.assembles(ctx, out),
            forall|built: Result<PoolB::Pool, eyre::Report>| #[trigger]
                self.pool_slot().builds_pool(ctx, built) ==> built is Err,
        ensures
            out matches Err(error) && error.stage == Stage::Pool && self.pool_slot().builds_pool(
                ctx,
                Err(error.cause),
            ),
    {
    }

    /// Where the pool stage can only succeed and the network stage can only
    /// fail on a clone of a pool that the pool stage returns, the assembly
    /// fails under the name of the network, with a cause that the network
    /// stage gave.
    pub proof fn law_network_failure_fails_the_assembly(
        self,
        ctx: &BuilderContext<Node>,
        out: Result<NodeComponents<Node, PoolB::Pool>, AssemblyError>,
    )
        requires
            self.assembles(ctx, out),
            forall|built: Result<PoolB::Pool, eyre::Report>| #[trigger]
                self.pool_slot().builds_pool(ctx, built) ==> built is Ok,
            forall|pool: PoolB::Pool, built: Result<Node::NetworkHandle, eyre::Report>|
                self.pool_slot().builds_pool(ctx, Ok(pool)) && #[trigger] self.network_on(
                    ctx,
                    pool,
                    built,
                ) ==> built is Err,
        ensures
            out matches Err(error) && error.stage == Stage::Network && exists|pool: PoolB::Pool|
                self.pool_slot().builds_pool(ctx, Ok(pool)) && #[trigger] self.network_on(
                    ctx,
                    pool,
                    Err(error.cause),
                ),
    {
    }

    /// Where the pool stage and the network stage can only succeed and the
    /// payload stage can only fail on a clone of a pool that the pool stage
    /// returns, the assembly fails under the name of the payload service.
    pub proof fn law_payload_failure_fails_the_assembly(
        self,
        ctx: &BuilderContext<Node>,
        out: Result<NodeComponents<Node, PoolB::Pool>, AssemblyError>,
    )
        requires
            self.assembles(ctx, out),
            forall|built: Result<PoolB::Pool, eyre::Report>| #[trigger]
                self.pool_slot().builds_pool(ctx, built) ==> built is Ok,
            forall|pool: PoolB::Pool, built: Result<Node::NetworkHandle, eyre::Report>|
                self.pool_slot().builds_pool(ctx, Ok(pool)) && #[trigger] self.network_on(
                    ctx,
                    pool,
                    built,
                ) ==> built is Ok,
            forall|pool: PoolB::Pool, built: Result<Node::PayloadBuilderHandle, eyre::Report>|
                self.pool_slot().builds_pool(ctx, Ok(pool)) && #[trigger] self.payload_on(
                    ctx,
                    pool,
                    built,
                ) ==> built is Err,
        ensures
            out matches Err(error) && error.stage == Stage::Payload,
    {
    }

    /// Where every stage can only succeed, the assembly succeeds, and its
    /// components are what the three stages returned: the network and the
    /// payload service each built on a clone of the pool that is returned.
    pub proof fn law_three_successes_assemble(
        self,
        ctx: &BuilderContext<Node>,
        out: Result<NodeComponents<Node, PoolB::Pool>, AssemblyError>,
    )
        requires
            self.assembles(ctx, out),
            forall|built: Result<PoolB::Pool, eyre::Report>| #[trigger]
                self.pool_slot().builds_pool(ctx, built) ==> built is Ok,
            forall|pool: PoolB::Pool, built: Result<Node::NetworkHandle, eyre::Report>|
                self.pool_slot().builds_pool(ctx, Ok(pool)) && #[trigger] self.network_on(
                    ctx,
                    pool,
                    built,
                ) ==> built is Ok,
            forall|pool: PoolB::Pool, built: Result<Node::PayloadBuilderHandle, eyre::Report>|
                self.pool_slot().builds_pool(ctx, Ok(pool)) && #[trigger] self.payload_on(
                    ctx,
                    pool,
                    built,
                ) ==> built is Ok,
        ensures
            out matches Ok(components) && self.pool_slot().builds_pool(
                ctx,
                Ok(components.transaction_pool),
            ) && self.network_on(ctx, components.transaction_pool, Ok(components.network))
                && self.payload_on(
                ctx,
                components.transaction_pool,
                Ok(components.payload_builder),
            ),
    {
    }
}

} // verus!
