//! Connector capabilities and the outcome of asking the process-wide
//! connector registry for one.

use vstd::prelude::*;

verus! {

/// What a resolved connector can do.  Capabilities are first-class
/// options: a connector without a table provider cannot itself serve
/// queries, one without a data publisher cannot accept replicated
/// writes.
#[derive(Clone, Copy, PartialEq, Eq, Debug, Structural)]
pub struct Connector {
    pub has_table_provider: bool,
    pub has_data_publisher: bool,
}

/// What the connector registry reported for a source identifier.
#[derive(Clone, Copy, PartialEq, Eq, Debug, Structural)]
pub enum CreateOutcome {
    /// The registry has no connector under this identifier.
    UnknownSource,
    /// The connector exists but its construction failed.
    InitFailed,
    /// The connector was constructed, with these capabilities.
    Created(Connector),
}

pub open spec fn spec_has_table_provider(dc: Option<Connector>) -> bool {
    match dc {
        Some(c) => c.has_table_provider,
        None => false,
    }
}

/// Whether an optionally resolved connector can itself serve as a
/// table source.
pub fn has_table_provider(dc: &Option<Connector>) -> (r: bool)
    ensures
        r == spec_has_table_provider(*dc),
{
    match dc {
        Some(c) => c.has_table_provider,
        None => false,
    }
}

} // verus!
