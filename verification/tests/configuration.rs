//! Filling and changing the three slots of a builder. What a slot holds is
//! seen in what the assembly returns.

use node_builder::{
    AssemblyError, BuilderContext, ComponentsBuilder, FullNodeTypes, NetworkBuilder,
    NodeComponents, NodeComponentsBuilder, PayloadServiceBuilder, PoolBuilder,
};

struct Mainnet;

impl FullNodeTypes for Mainnet {
    type Config = u64;
    type NetworkHandle = (String, u64);
    type PayloadBuilderHandle = (String, u64);
}

struct Testnet;

impl FullNodeTypes for Testnet {
    type Config = ();
    type NetworkHandle = u64;
    type PayloadBuilderHandle = u64;
}

/// Builds a pool of `size` transactions.
#[derive(Debug, PartialEq)]
struct SizedPool {
    size: u64,
}

/// Builds a network called `name`.
#[derive(Debug, PartialEq)]
struct NamedNetwork {
    name: String,
}

/// Builds a payload service called `name`.
#[derive(Debug, PartialEq)]
struct NamedPayload {
    name: String,
}

impl PoolBuilder<Mainnet> for SizedPool {
    type Pool = u64;

    fn build_pool(self, ctx: &BuilderContext<Mainnet>) -> Result<u64, eyre::Report> {
        Ok(self.size + ctx.config)
    }
}

impl NetworkBuilder<Mainnet, u64> for NamedNetwork {
    fn build_network(
        self,
        _ctx: &BuilderContext<Mainnet>,
        pool: u64,
    ) -> Result<(String, u64), eyre::Report> {
        Ok((self.name, pool))
    }
}

impl PayloadServiceBuilder<Mainnet, u64> for NamedPayload {
    fn spawn_payload_service(
        self,
        _ctx: &BuilderContext<Mainnet>,
        pool: u64,
    ) -> Result<(String, u64), eyre::Report> {
        Ok((self.name, pool))
    }
}

impl PoolBuilder<Testnet> for SizedPool {
    type Pool = u64;

    fn build_pool(self, _ctx: &BuilderContext<Testnet>) -> Result<u64, eyre::Report> {
        Ok(self.size)
    }
}

impl NetworkBuilder<Testnet, u64> for NamedNetwork {
    fn build_network(self, _ctx: &BuilderContext<Testnet>, pool: u64) -> Result<u64, eyre::Report> {
        Ok(pool + 1)
    }
}

impl PayloadServiceBuilder<Testnet, u64> for NamedPayload {
    fn spawn_payload_service(
        self,
        _ctx: &BuilderContext<Testnet>,
        pool: u64,
    ) -> Result<u64, eyre::Report> {
        Ok(pool + 2)
    }
}

fn filled() -> ComponentsBuilder<Mainnet, SizedPool, NamedPayload, NamedNetwork> {
    ComponentsBuilder::default()
        .node_types::<Mainnet>()
        .pool(SizedPool { size: 10 })
        .network(NamedNetwork { name: String::from("net") })
        .payload(NamedPayload { name: String::from("pay") })
}

fn build<B>(builder: B, config: u64) -> NodeComponents<Mainnet, u64>
where
    B: NodeComponentsBuilder<Mainnet, Pool = u64>,
{
    let out: Result<NodeComponents<Mainnet, u64>, AssemblyError> =
        builder.build_components(&BuilderContext { config });
    match out {
        Ok(components) => components,
        Err(error) => panic!("the assembly failed at {:?}: {}", error.stage, error.cause),
    }
}

#[test]
fn default_builder_has_no_slot_filled() {
    let builder: ComponentsBuilder<(), (), (), ()> = ComponentsBuilder::default();
    assert_eq!(
        format!("{:?}", builder),
        "ComponentsBuilder { pool_builder: (), payload_builder: (), network_builder: (), \
         _marker: PhantomData<()> }"
    );
}

#[test]
fn slots_may_be_mapped_before_they_are_filled() {
    let builder = ComponentsBuilder::default()
        .map_pool(|unset: ()| unset)
        .map_network(|unset: ()| unset)
        .map_payload(|unset: ()| unset)
        .node_types::<Mainnet>();
    let built = build(
        builder
            .pool(SizedPool { size: 1 })
            .network(NamedNetwork { name: String::from("n") })
            .payload(NamedPayload { name: String::from("p") }),
        0,
    );
    assert_eq!(built.transaction_pool, 1);
}

#[test]
fn filled_slots_are_what_is_built() {
    let built = build(filled(), 5);
    assert_eq!(built.transaction_pool, 15);
    assert_eq!(built.network, (String::from("net"), 15));
    assert_eq!(built.payload_builder, (String::from("pay"), 15));
}

#[test]
fn payload_may_be_set_before_network() {
    let builder = ComponentsBuilder::default()
        .node_types::<Mainnet>()
        .pool(SizedPool { size: 10 })
        .payload(NamedPayload { name: String::from("pay") })
        .network(NamedNetwork { name: String::from("net") });
    let built = build(builder, 0);
    assert_eq!(built.network, (String::from("net"), 10));
    assert_eq!(built.payload_builder, (String::from("pay"), 10));
}

#[test]
fn map_pool_changes_the_pool_slot_only() {
    let built = build(filled().map_pool(|pool| SizedPool { size: pool.size * 3 }), 5);
    assert_eq!(built.transaction_pool, 35);
    assert_eq!(built.network, (String::from("net"), 35));
    assert_eq!(built.payload_builder, (String::from("pay"), 35));
}

#[test]
fn map_network_changes_the_network_slot_only() {
    let builder =
        filled().map_network(|network| NamedNetwork { name: format!("{}-v2", network.name) });
    let built = build(builder, 5);
    assert_eq!(built.transaction_pool, 15);
    assert_eq!(built.network, (String::from("net-v2"), 15));
    assert_eq!(built.payload_builder, (String::from("pay"), 15));
}

#[test]
fn map_payload_changes_the_payload_slot_only() {
    let builder =
        filled().map_payload(|payload| NamedPayload { name: format!("{}-v2", payload.name) });
    let built = build(builder, 5);
    assert_eq!(built.transaction_pool, 15);
    assert_eq!(built.network, (String::from("net"), 15));
    assert_eq!(built.payload_builder, (String::from("pay-v2"), 15));
}

#[test]
fn map_is_handed_the_builder_in_the_slot() {
    let mut seen = None;
    let builder = filled().map_pool(|pool| {
        seen = Some(pool.size);
        pool
    });
    assert_eq!(seen, Some(10));
    assert_eq!(build(builder, 0).transaction_pool, 10);
}

#[test]
fn maps_apply_in_the_order_of_the_calls() {
    let builder = filled()
        .map_pool(|pool| SizedPool { size: pool.size + 1 })
        .map_pool(|pool| SizedPool { size: pool.size * 2 });
    assert_eq!(build(builder, 0).transaction_pool, 22);
}

#[test]
fn pool_replaces_the_pool_builder() {
    let builder = filled().pool(SizedPool { size: 100 });
    let built = build(builder, 5);
    assert_eq!(built.transaction_pool, 105);
    assert_eq!(built.network, (String::from("net"), 105));
    assert_eq!(built.payload_builder, (String::from("pay"), 105));
}

#[test]
fn network_replaces_the_network_builder() {
    let builder = filled().network(NamedNetwork { name: String::from("other") });
    let built = build(builder, 5);
    assert_eq!(built.transaction_pool, 15);
    assert_eq!(built.network, (String::from("other"), 15));
    assert_eq!(built.payload_builder, (String::from("pay"), 15));
}

#[test]
fn payload_replaces_the_payload_builder() {
    let builder = filled().payload(NamedPayload { name: String::from("other") });
    let built = build(builder, 5);
    assert_eq!(built.transaction_pool, 15);
    assert_eq!(built.network, (String::from("net"), 15));
    assert_eq!(built.payload_builder, (String::from("other"), 15));
}

#[test]
fn node_types_keeps_the_slots() {
    let builder = filled().node_types::<Testnet>();
    let out = builder.build_components(&BuilderContext::<Testnet> { config: () });
    match out {
        Ok(built) => {
            assert_eq!(built.transaction_pool, 10);
            assert_eq!(built.network, 11);
            assert_eq!(built.payload_builder, 12);
        }
        Err(error) => panic!("the assembly failed at {:?}: {}", error.stage, error.cause),
    }
}

#[test]
fn a_pool_builder_of_another_pool_type_takes_new_builders_for_the_rest() {
    let pool = |_ctx: &BuilderContext<Testnet>| -> Result<String, eyre::Report> {
        Ok(String::from("pool"))
    };
    let network = |_ctx: &BuilderContext<Testnet>, pool: String| -> Result<u64, eyre::Report> {
        Ok(pool.len() as u64)
    };
    let payload = |_ctx: &BuilderContext<Testnet>, pool: String| -> Result<u64, eyre::Report> {
        Ok(pool.len() as u64 * 2)
    };
    let builder = ComponentsBuilder::default()
        .node_types::<Testnet>()
        .pool(SizedPool { size: 1 })
        .pool(pool)
        .network(network)
        .payload(payload);
    match builder.build_components(&BuilderContext::<Testnet> { config: () }) {
        Ok(built) => {
            assert_eq!(built.transaction_pool, "pool");
            assert_eq!(built.network, 4);
            assert_eq!(built.payload_builder, 8);
        }
        Err(error) => panic!("the assembly failed at {:?}: {}", error.stage, error.cause),
    }
}
