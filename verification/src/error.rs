//! The failures a dataset load attempt can report, tagged so that the
//! pipeline can tell a permanent configuration error from a transient
//! one that is worth retrying.

use vstd::prelude::*;

verus! {

/// Why a load attempt could not finish.  `data_connector` carries the
/// source identifier the failure concerns.
#[derive(Clone, Debug)]
pub enum Error {
    /// The source identifier is not known to the connector registry:
    /// a configuration error, never retried.
    UnknownDataConnector { data_connector: String },
    /// The registry knows the connector but constructing it failed,
    /// e.g. for transient network or credential reasons.
    UnableToInitializeDataConnector { data_connector: String },
    /// The query engine rejected the view attachment.
    UnableToAttachView,
    /// The query engine could not create the accelerated backend.
    UnableToCreateBackend,
    /// Attaching the connector or a publisher to the query engine
    /// failed.
    UnableToAttachDataConnector { data_connector: String },
}

pub open spec fn spec_is_permanent(e: Error) -> bool {
    e is UnknownDataConnector
}

impl Error {
    /// A permanent failure signals a configuration error and ends the
    /// pipeline in `Error` status; every other failure is retried.
    pub fn is_permanent(&self) -> (r: bool)
        ensures
            r == spec_is_permanent(*self),
    {
        match self {
            Error::UnknownDataConnector { .. } => true,
            _ => false,
        }
    }
}

} // verus!
