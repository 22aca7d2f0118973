//! The decisions of an assembly: which stage runs next, and what becomes of
//! the assembly once the stage has returned.
//!
//! An [`Assembly`] runs nothing itself. Whoever drives it asks for the next
//! action, runs that stage in whatever way suits it, and hands the stage's
//! output back. So one set of decisions serves a caller that blocks and a
//! caller that suspends at every stage.

use vstd::prelude::*;
use vstd::pervasive::unreached;
use crate::error::{AssemblyError, Stage};
use crate::node::{FullNodeTypes, NodeComponents};

verus! {

/// What a stage returned, under the name of the stage.
pub enum StageOutput<Node: FullNodeTypes, Pool> {
    /// The pool stage returned.
    Pool(Result<Pool, eyre::Report>),
    /// The network stage returned.
    Network(Result<Node::NetworkHandle, eyre::Report>),
    /// The payload stage returned.
    Payload(Result<Node::PayloadBuilderHandle, eyre::Report>),
}

impl<Node: FullNodeTypes, Pool> StageOutput<Node, Pool> {
    /// The stage that the output comes from.
    pub open spec fn stage(self) -> Stage {
        match self {
            StageOutput::Pool(_) => Stage::Pool,
            StageOutput::Network(_) => Stage::Network,
            StageOutput::Payload(_) => Stage::Payload,
        }
    }

    /// The cause of the failure, if the stage failed.
    pub open spec fn cause(self) -> Option<eyre::Report> {
        match self {
            StageOutput::Pool(Err(cause)) => Some(cause),
            StageOutput::Network(Err(cause)) => Some(cause),
            StageOutput::Payload(Err(cause)) => Some(cause),
            _ => None,
        }
    }
}

/// What the driver of an assembly has to do next.
pub enum Action<'a, Pool> {
    /// Run the pool stage.
    BuildPool,
    /// Run the network stage on a clone of this pool.
    BuildNetwork(&'a Pool),
    /// Run the payload stage on a clone of this pool.
    SpawnPayload(&'a Pool),
    /// Run nothing more: the assembly has its outcome.
    Finish,
}

/// How far an assembly has come.
///
/// It holds the components that are built so far. They leave it only
/// together, in [`Assembly::finish`], and only when all three are there.
pub enum Assembly<Node: FullNodeTypes, Pool> {
    /// Nothing is built. The pool stage is next.
    AwaitingPool,
    /// The pool is up. The network stage is next.
    AwaitingNetwork {
        /// The pool.
        pool: Pool,
    },
    /// The pool and the network are up. The payload stage is next.
    AwaitingPayload {
        /// The pool.
        pool: Pool,
        /// The handle to the network.
        network: Node::NetworkHandle,
    },
    /// All three stages succeeded.
    Complete(NodeComponents<Node, Pool>),
    /// A stage failed, and no stage ran after it.
    Failed(AssemblyError),
}

impl<Node: FullNodeTypes, Pool> Assembly<Node, Pool> {
    /// The stage that is to run next, if there is one.
    pub open spec fn pending(self) -> Option<Stage> {
        match self {
            Assembly::AwaitingPool => Some(Stage::Pool),
            Assembly::AwaitingNetwork { .. } => Some(Stage::Network),
            Assembly::AwaitingPayload { .. } => Some(Stage::Payload),
            Assembly::Complete(_) => None,
            Assembly::Failed(_) => None,
        }
    }

    /// The pool, once it is built and for as long as the assembly is not
    /// failed.
    pub open spec fn pool(self) -> Option<Pool> {
        match self {
            Assembly::AwaitingNetwork { pool } => Some(pool),
            Assembly::AwaitingPayload { pool, .. } => Some(pool),
            Assembly::Complete(components) => Some(components.transaction_pool),
            _ => None,
        }
    }

    /// The assembly after `output` was handed to it.
    ///
    /// Only the output of the pending stage counts: any other changes
    /// nothing. If the stage failed, the assembly is failed under the
    /// stage's name, with the cause that the stage gave. If it succeeded,
    /// the assembly holds what the stage built and waits for the next
    /// stage, or is complete after the last.
    pub open spec fn after(self, output: StageOutput<Node, Pool>) -> Self {
        if self.pending() != Some(output.stage()) {
            self
        } else if let Some(cause) = output.cause() {
            Assembly::Failed(AssemblyError { stage: output.stage(), cause })
        } else {
            match (self, output) {
                (_, StageOutput::Pool(Ok(pool))) => Assembly::AwaitingNetwork { pool },
                (
                    Assembly::AwaitingNetwork { pool },
                    StageOutput::Network(Ok(network)),
                ) => Assembly::AwaitingPayload { pool, network },
                (
                    Assembly::AwaitingPayload { pool, network },
                    StageOutput::Payload(Ok(payload_builder)),
                ) => Assembly::Complete(
                    NodeComponents { transaction_pool: pool, network, payload_builder },
                ),
                _ => self,
            }
        }
    }

    /// The action that the pending stage calls for. The two later stages
    /// are run on the pool that the assembly holds.
    pub open spec fn action(&self) -> Action<'_, Pool> {
        match self.pending() {
            Some(Stage::Pool) => Action::BuildPool,
            Some(Stage::Network) => Action::BuildNetwork(&self.pool().unwrap()),
            Some(Stage::Payload) => Action::SpawnPayload(&self.pool().unwrap()),
            None => Action::Finish,
        }
    }

    /// The outcome of the assembly, once no stage is pending.
    pub open spec fn outcome(self) -> Option<Result<NodeComponents<Node, Pool>, AssemblyError>> {
        match self {
            Assembly::Complete(components) => Some(Ok(components)),
            Assembly::Failed(error) => Some(Err(error)),
            _ => None,
        }
    }

    /// An assembly in which nothing is built yet.
    pub fn new() -> (out: Self)
        ensures
            out == Assembly::<Node, Pool>::AwaitingPool,
    {
        Assembly::AwaitingPool
    }

    /// What the driver has to do next: run the pending stage, on the pool
    /// that it is built on, or nothing more.
    pub fn next_action(&self) -> (out: Action<'_, Pool>)
        ensures
            out == self.action(),
    {
        match self {
            Assembly::AwaitingPool => Action::BuildPool,
            Assembly::AwaitingNetwork { pool } => Action::BuildNetwork(pool),
            Assembly::AwaitingPayload { pool, .. } => Action::SpawnPayload(pool),
            Assembly::Complete(_) => Action::Finish,
            Assembly::Failed(_) => Action::Finish,
        }
    }

    /// Takes the output of a stage and moves on.
    pub fn advance(self, output: StageOutput<Node, Pool>) -> (out: Self)
        ensures
            out == self.after(output),
    {
        match (self, output) {
            (Assembly::AwaitingPool, StageOutput::Pool(Ok(pool))) => Assembly::AwaitingNetwork {
                pool,
            },
            (Assembly::AwaitingPool, StageOutput::Pool(Err(cause))) => Assembly::Failed(
                AssemblyError { stage: Stage::Pool, cause },
            ),
            (
                Assembly::AwaitingNetwork { pool },
                StageOutput::Network(Ok(network)),
            ) => Assembly::AwaitingPayload { pool, network },
            (Assembly::AwaitingNetwork { .. }, StageOutput::Network(Err(cause))) => Assembly::Failed(
                AssemblyError { stage: Stage::Network, cause },
            ),
            (
                Assembly::AwaitingPayload { pool, network },
                StageOutput::Payload(Ok(payload_builder)),
            ) => Assembly::Complete(
                NodeComponents { transaction_pool: pool, network, payload_builder },
            ),
            (Assembly::AwaitingPayload { .. }, StageOutput::Payload(Err(cause))) => Assembly::Failed(
                AssemblyError { stage: Stage::Payload, cause },
            ),
            (state, _) => state,
        }
    }

    /// Hands out the outcome: all three components, or the one failure.
    /// This is for an assembly in which no stage is pending, which is one
    /// whose next action is [`Action::Finish`].
    pub fn finish(self) -> (out: Result<NodeComponents<Node, Pool>, AssemblyError>)
        requires
            self.pending() is None,
        ensures
            self.outcome() == Some(out),
    {
        match self {
            Assembly::Complete(components) => Ok(components),
            Assembly::Failed(error) => Err(error),
            _ => unreached(),
        }
    }
}

impl<Node: FullNodeTypes, Pool> Assembly<Node, Pool> {
    /// The number of stages that have run: those that succeeded and, in a
    /// failed assembly, the one that failed.
    pub open spec fn stages_done(self) -> nat {
        match self {
            Assembly::AwaitingPool => 0,
            Assembly::AwaitingNetwork { .. } => 1,
            Assembly::AwaitingPayload { .. } => 2,
            Assembly::Complete(_) => 3,
            Assembly::Failed(error) => error.stage.position() + 1,
        }
    }

    /// The assembly after the outputs were handed to it one after the
    /// other.
    pub open spec fn after_all(self, outputs: Seq<StageOutput<Node, Pool>>) -> Self
        decreases outputs.len(),
    {
        if outputs.len() == 0 {
            self
        } else {
            self.after(outputs[0]).after_all(outputs.drop_first())
        }
    }

    /// The stages that ran, in the order in which they ran, while the
    /// outputs were handed over one after the other. An output stands for a
    /// run of its stage where that stage was pending when it came; the
    /// others were asked for by nobody and count for nothing.
    pub open spec fn stages_run(self, outputs: Seq<StageOutput<Node, Pool>>) -> Seq<Stage>
        decreases outputs.len(),
    {
        if outputs.len() == 0 {
            Seq::empty()
        } else if self.pending() == Some(outputs[0].stage()) {
            seq![outputs[0].stage()] + self.after(outputs[0]).stages_run(outputs.drop_first())
        } else {
            self.stages_run(outputs.drop_first())
        }
    }

    /// The stages run in their order, whatever is handed to the assembly:
    /// the stage that runs as the `i`-th from here on is the one `i` places
    /// after those already done. From the start that is the pool, then the
    /// network, then the payload service, and nothing after them. Each run
    /// is counted in `stages_done`.
    pub proof fn law_stages_run_in_order(self, outputs: Seq<StageOutput<Node, Pool>>)
        ensures
            forall|i: int|
                0 <= i < self.stages_run(outputs).len() ==> (#[trigger] self.stages_run(
                    outputs,
                )[i]).position() == self.stages_done() + i,
            self.after_all(outputs).stages_done() == self.stages_done() + self.stages_run(
                outputs,
            ).len(),
            self.stages_done() + self.stages_run(outputs).len() <= 3,
        decreases outputs.len(),
    {
        if outputs.len() > 0 {
            let rest = outputs.drop_first();
            if self.pending() == Some(outputs[0].stage()) {
                let next = self.after(outputs[0]);
                next.law_stages_run_in_order(rest);
                assert forall|i: int| 0 <= i < self.stages_run(outputs).len() implies (
                #[trigger] self.stages_run(outputs)[i]).position() == self.stages_done() + i by {
                    if i > 0 {
                        assert(self.stages_run(outputs)[i] == next.stages_run(rest)[i - 1]);
                    }
                }
            } else {
                self.law_stages_run_in_order(rest);
            }
        }
    }

    /// What an assembly that starts with nothing built has come to tells
    /// which stages ran. Components come out of it only after all three
    /// stages ran, a failure only after the stage that failed ran as the
    /// last one, and a stage is pending only after all the stages before it
    /// ran and no other.
    pub proof fn law_outcome_tells_the_stages(outputs: Seq<StageOutput<Node, Pool>>)
        ensures
            ({
                let end = Assembly::<Node, Pool>::AwaitingPool.after_all(outputs);
                let run = Assembly::<Node, Pool>::AwaitingPool.stages_run(outputs);
                &&& end is Complete ==> run == seq![Stage::Pool, Stage::Network, Stage::Payload]
                &&& end matches Assembly::Failed(error) ==> run.len() == error.stage.position() + 1
                    && run.last() == error.stage
                &&& end.pending() matches Some(stage) ==> run.len() == stage.position()
            }),
    {
        let start = Assembly::<Node, Pool>::AwaitingPool;
        let run = start.stages_run(outputs);
        start.law_stages_run_in_order(outputs);
        if start.after_all(outputs) is Complete {
            let order = seq![Stage::Pool, Stage::Network, Stage::Payload];
            assert forall|i: int| 0 <= i < 3 implies run[i] == order[i] by {
                assert(run[i].position() == i);
            }
            assert(run =~= order);
        }
    }

    /// Where all three stages succeed, one after the other, the assembly is
    /// complete, and its components are the three that the stages returned.
    pub proof fn law_three_successes_complete(
        pool: Pool,
        network: Node::NetworkHandle,
        payload_builder: Node::PayloadBuilderHandle,
    )
        ensures
            Assembly::<Node, Pool>::AwaitingPool.after(StageOutput::Pool(Ok(pool))).after(
                StageOutput::Network(Ok(network)),
            ).after(StageOutput::Payload(Ok(payload_builder))) == Assembly::<
                Node,
                Pool,
            >::Complete(NodeComponents { transaction_pool: pool, network, payload_builder }),
    {
    }

    /// An outcome is final: once no stage is pending, nothing that is
    /// handed to the assembly changes it, and no stage runs.
    pub proof fn law_outcome_is_final(self, outputs: Seq<StageOutput<Node, Pool>>)
        requires
            self.pending() is None,
        ensures
            self.after_all(outputs) == self,
            self.stages_run(outputs) == Seq::<Stage>::empty(),
        decreases outputs.len(),
    {
        if outputs.len() > 0 {
            self.law_outcome_is_final(outputs.drop_first());
        }
    }

    /// Where the pool stage fails, the assembly fails under the name of the
    /// pool with the cause that the stage gave, and that is final: neither
    /// the network stage nor the payload stage runs, whatever follows.
    pub proof fn law_pool_failure_is_final(
        cause: eyre::Report,
        later: Seq<StageOutput<Node, Pool>>,
    )
        ensures
            ({
                let failed = Assembly::<Node, Pool>::AwaitingPool.after(
                    StageOutput::Pool(Err(cause)),
                );
                &&& failed == Assembly::<Node, Pool>::Failed(
                    AssemblyError { stage: Stage::Pool, cause },
                )
                &&& failed.pending() is None
                &&& failed.after_all(later) == failed
                &&& failed.stages_run(later) == Seq::<Stage>::empty()
            }),
    {
        let failed = Assembly::<Node, Pool>::AwaitingPool.after(StageOutput::Pool(Err(cause)));
        failed.law_outcome_is_final(later);
    }

    /// Where the pool stage succeeds and the network stage fails, the
    /// assembly fails under the name of the network with the cause that the
    /// stage gave, and that is final: the payload stage does not run,
    /// whatever follows.
    pub proof fn law_network_failure_is_final(
        pool: Pool,
        cause: eyre::Report,
        later: Seq<StageOutput<Node, Pool>>,
    )
        ensures
            ({
                let failed = Assembly::<Node, Pool>::AwaitingPool.after(
                    StageOutput::Pool(Ok(pool)),
                ).after(StageOutput::Network(Err(cause)));
                &&& failed == Assembly::<Node, Pool>::Failed(
                    AssemblyError { stage: Stage::Network, cause },
                )
                &&& failed.pending() is None
                &&& failed.after_all(later) == failed
                &&& failed.stages_run(later) == Seq::<Stage>::empty()
            }),
    {
        let failed = Assembly::<Node, Pool>::AwaitingPool.after(
            StageOutput::Pool(Ok(pool)),
        ).after(StageOutput::Network(Err(cause)));
        failed.law_outcome_is_final(later);
    }
}

} // verus!
