//! Assembling the components of a node in the order of their dependencies.
//!
//! A node has a transaction pool, a network and a payload service. The last
//! two are built on the pool, so the pool comes first. A
//! [`ComponentsBuilder`] collects one builder for each of them and accepts a
//! builder for the network or the payload service only once it holds one
//! for the pool; an [`Assembly`] decides, stage by stage, what is run next
//! and what the outcome is.
//!
//! The builders of this library return when their stage is done, and
//! [`NodeComponentsBuilder::build_components`] runs them one after the
//! other. A caller whose stages suspend drives an [`Assembly`] itself: it
//! awaits each stage where it likes and hands the output over, and the
//! decisions are the same.

pub mod assembly;
pub mod components;
pub mod error;
pub mod node;
pub mod stages;

pub use assembly::{Action, Assembly, StageOutput};
pub use components::{ComponentsBuilder, NodeComponentsBuilder};
pub use error::{AssemblyError, Stage};
pub use node::{BuilderContext, FullNodeTypes, NodeComponents};
pub use stages::{NetworkBuilder, PayloadServiceBuilder, PoolBuilder};
