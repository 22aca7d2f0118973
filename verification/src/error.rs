//! How an assembly fails: the stage that failed and the cause it gave.

use vstd::prelude::*;

verus! {

/// `eyre::Report`, the error that a stage gives as the cause of its failure.
///
/// Nothing is known of what a report holds: the library carries it from the
/// stage that failed to the caller and never looks inside.
#[verifier::external_type_specification]
#[verifier::external_body]
pub struct ExReport(eyre::Report);

/// One step of an assembly. The stages run in the order in which they are
/// listed: the pool first, since the network and the payload service are
/// both built on it.
#[derive(Clone, Copy, Debug, PartialEq, Eq, Structural)]
pub enum Stage {
    /// The transaction pool is built.
    Pool,
    /// The network is built on a handle to the pool.
    Network,
    /// The payload service is started on a handle to the pool.
    Payload,
}

impl Stage {
    /// The place of the stage in the order of an assembly, counted from 0.
    pub open spec fn position(self) -> nat {
        match self {
            Stage::Pool => 0,
            Stage::Network => 1,
            Stage::Payload => 2,
        }
    }
}

/// The one failure of an assembly: the first stage that failed, and the
/// cause as that stage gave it.
#[derive(Debug)]
pub struct AssemblyError {
    /// The stage that failed.
    pub stage: Stage,
    /// The error of that stage, unchanged.
    pub cause: eyre::Report,
}

} // verus!
