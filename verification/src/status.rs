//! Per-entity lifecycle status: a process-wide, last-write-wins map
//! from entity name to the state an observer currently sees.

use vstd::prelude::*;
use crate::registry::NameMap;

verus! {

/// The lifecycle state of one named component.  `Initializing` is the
/// initial state of any load or update attempt; `Ready` and `Error`
/// end an attempt; `Refreshing` is set when an update begins, before
/// the entity returns to `Initializing`; `Disabled` marks an entity
/// that left the specification, written just before its teardown.
#[derive(Clone, Copy, PartialEq, Eq, Debug, Structural)]
pub enum ComponentStatus {
    Initializing,
    Ready,
    Error,
    Refreshing,
    Disabled,
}

/// The status registry: unconditional overwrite on `insert`, no
/// history.  Kept independently for datasets and for models.
pub type StatusRegistry = NameMap<ComponentStatus>;

} // verus!
