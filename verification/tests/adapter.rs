//! A function from the context to the components is a builder of its own.

use std::cell::Cell;

use node_builder::{
    AssemblyError, BuilderContext, FullNodeTypes, NodeComponents, NodeComponentsBuilder, Stage,
};

struct TestNode;

impl FullNodeTypes for TestNode {
    type Config = u32;
    type NetworkHandle = &'static str;
    type PayloadBuilderHandle = char;
}

type Built = Result<NodeComponents<TestNode, u32>, AssemblyError>;

fn wire_by_hand(ctx: &BuilderContext<TestNode>) -> Built {
    Ok(NodeComponents { transaction_pool: ctx.config, network: "N", payload_builder: 'H' })
}

fn run<B: NodeComponentsBuilder<TestNode>>(
    builder: B,
    ctx: &BuilderContext<TestNode>,
) -> Result<NodeComponents<TestNode, B::Pool>, AssemblyError> {
    builder.build_components(ctx)
}

#[test]
fn function_is_a_components_builder() {
    let ctx = BuilderContext::<TestNode> { config: 7 };
    match run(wire_by_hand, &ctx) {
        Ok(built) => {
            assert_eq!(built.transaction_pool, 7);
            assert_eq!(built.network, "N");
            assert_eq!(built.payload_builder, 'H');
        }
        Err(error) => panic!("the function failed at {:?}: {}", error.stage, error.cause),
    }
}

#[test]
fn closure_returns_exactly_what_it_built() {
    let ctx = BuilderContext::<TestNode> { config: 0 };
    let adapter = |_ctx: &BuilderContext<TestNode>| -> Built {
        Ok(NodeComponents { transaction_pool: 41, network: "net", payload_builder: 'p' })
    };
    match adapter.build_components(&ctx) {
        Ok(built) => {
            assert_eq!(built.transaction_pool, 41);
            assert_eq!(built.network, "net");
            assert_eq!(built.payload_builder, 'p');
        }
        Err(error) => panic!("the closure failed at {:?}: {}", error.stage, error.cause),
    }
}

#[test]
fn closure_is_called_once() {
    let ctx = BuilderContext::<TestNode> { config: 3 };
    let calls = Cell::new(0);
    let adapter = |ctx: &BuilderContext<TestNode>| -> Built {
        calls.set(calls.get() + 1);
        Ok(NodeComponents { transaction_pool: ctx.config, network: "net", payload_builder: 'p' })
    };
    assert!(run(adapter, &ctx).is_ok());
    assert_eq!(calls.get(), 1);
}

#[test]
fn failure_of_the_function_is_the_failure_returned() {
    let ctx = BuilderContext::<TestNode> { config: 3 };
    let adapter = |ctx: &BuilderContext<TestNode>| -> Built {
        Err(AssemblyError {
            stage: Stage::Network,
            cause: eyre::Report::msg(format!("no route for {}", ctx.config)),
        })
    };
    match run(adapter, &ctx) {
        Ok(_) => panic!("the function succeeded"),
        Err(error) => {
            assert_eq!(error.stage, Stage::Network);
            assert_eq!(error.cause.to_string(), "no route for 3");
        }
    }
}
