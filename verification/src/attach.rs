//! The attachment strategist: given a dataset's settings and its
//! optionally resolved connector, decide which attachment strategy
//! applies and which query-engine calls, in which order, carry it out.

use vstd::prelude::*;
use crate::component::{
    Dataset, Mode, acceleration_enabled, is_view_dataset, replication_enabled,
};
use crate::connector::{Connector, spec_has_table_provider};

verus! {

/// The strategy chosen for one dataset.  The strategies are mutually
/// exclusive; the decision table is evaluated top to bottom.
#[derive(Clone, Copy, PartialEq, Eq, Debug, Structural)]
pub enum AttachPlan {
    /// The dataset is a view: attach its defining query and nothing
    /// else.
    View,
    /// No (enabled) acceleration and a connector is present: attach
    /// the connector as a live pass-through source.
    Mesh,
    /// Create an accelerated local backend, then wire the optional
    /// pieces recorded in the fields.
    Accelerated {
        /// Attach the backend as the write-capable publisher: the
        /// dataset is read-write, or it has no connector at all.
        publish_backend: bool,
        /// Replication is wanted and the connector offers a data
        /// publisher: attach it as an additional publisher.
        replicate_via_connector: bool,
        /// Replication is wanted but the connector cannot accept
        /// writes: degrade to read-only replication and log, not an
        /// error.
        replication_unsupported: bool,
        /// A connector is present: wire it as the read-side source
        /// feeding the backend.
        wire_connector: bool,
    },
    /// The dataset has no data path at all: no acceleration is
    /// configured and no connector can serve as a table source.  It
    /// is abandoned with a warning, deliberately distinct from an
    /// error.
    Unserved,
}

/// The individual query-engine calls a plan translates to.
#[derive(Clone, Copy, PartialEq, Eq, Debug, Structural)]
pub enum AttachCall {
    AttachView,
    AttachMesh,
    CreateBackend,
    AttachBackendPublisher,
    AttachConnectorPublisher,
    WireConnector,
}

/// A dataset nothing can serve: not a view, no acceleration
/// configured, and no connector able to act as a table source.
pub open spec fn spec_unserved(ds: Dataset, conn: Option<Connector>) -> bool {
    &&& !is_view_dataset(ds)
    &&& ds.acceleration is None
    &&& !spec_has_table_provider(conn)
}

/// The decision table of the strategist, evaluated in order.
pub open spec fn plan_of(ds: Dataset, conn: Option<Connector>) -> AttachPlan {
    if is_view_dataset(ds) {
        AttachPlan::View
    } else if spec_unserved(ds, conn) {
        AttachPlan::Unserved
    } else if !acceleration_enabled(ds) && conn is Some {
        AttachPlan::Mesh
    } else {
        let replicate = conn is Some && ds.mode == Mode::ReadWrite && replication_enabled(ds);
        AttachPlan::Accelerated {
            publish_backend: ds.mode == Mode::ReadWrite || conn is None,
            replicate_via_connector: replicate && (conn matches Some(c) && c.has_data_publisher),
            replication_unsupported: replicate && !(conn matches Some(c) && c.has_data_publisher),
            wire_connector: conn is Some,
        }
    }
}

/// Chooses the attachment strategy for `ds` given its resolved
/// connector, if any.
pub fn attachment_plan(ds: &Dataset, conn: &Option<Connector>) -> (r: AttachPlan)
    ensures
        r == plan_of(*ds, *conn),
{
    if ds.view_sql.is_some() {
        return AttachPlan::View;
    }
    let accel_on = match &ds.acceleration {
        Some(acc) => acc.enabled,
        None => false,
    };
    let provider = match conn {
        Some(c) => c.has_table_provider,
        None => false,
    };
    if ds.acceleration.is_none() && !provider {
        return AttachPlan::Unserved;
    }
    if !accel_on && conn.is_some() {
        return AttachPlan::Mesh;
    }
    let read_write = match ds.mode {
        Mode::ReadWrite => true,
        Mode::ReadOnly => false,
    };
    let publisher = match conn {
        Some(c) => c.has_data_publisher,
        None => false,
    };
    let repl_on = match &ds.replication {
        Some(rep) => rep.enabled,
        None => false,
    };
    let replicate = conn.is_some() && read_write && repl_on;
    AttachPlan::Accelerated {
        publish_backend: read_write || conn.is_none(),
        replicate_via_connector: replicate && publisher,
        replication_unsupported: replicate && !publisher,
        wire_connector: conn.is_some(),
    }
}

/// The ordered query-engine calls that execute a plan.  Any call's
/// failure aborts the rest and the attempt is retried.
pub open spec fn spec_attach_calls(plan: AttachPlan) -> Seq<AttachCall> {
    match plan {
        AttachPlan::View => seq![AttachCall::AttachView],
        AttachPlan::Mesh => seq![AttachCall::AttachMesh],
        AttachPlan::Accelerated {
            publish_backend,
            replicate_via_connector,
            replication_unsupported: _,
            wire_connector,
        } => seq![AttachCall::CreateBackend] + (if publish_backend {
            seq![AttachCall::AttachBackendPublisher]
        } else {
            Seq::empty()
        }) + (if replicate_via_connector {
            seq![AttachCall::AttachConnectorPublisher]
        } else {
            Seq::empty()
        }) + (if wire_connector {
            seq![AttachCall::WireConnector]
        } else {
            Seq::empty()
        }),
        AttachPlan::Unserved => Seq::empty(),
    }
}

/// Lays out the engine calls for `plan`, in execution order.
pub fn attach_calls(plan: &AttachPlan) -> (r: Vec<AttachCall>)
    ensures
        r@ == spec_attach_calls(*plan),
{
    let mut calls: Vec<AttachCall> = Vec::new();
    match plan {
        AttachPlan::View => {
            calls.push(AttachCall::AttachView);
        },
        AttachPlan::Mesh => {
            calls.push(AttachCall::AttachMesh);
        },
        AttachPlan::Accelerated {
            publish_backend,
            replicate_via_connector,
            replication_unsupported: _,
            wire_connector,
        } => {
            calls.push(AttachCall::CreateBackend);
            if *publish_backend {
                calls.push(AttachCall::AttachBackendPublisher);
            }
            if *replicate_via_connector {
                calls.push(AttachCall::AttachConnectorPublisher);
            }
            if *wire_connector {
                calls.push(AttachCall::WireConnector);
            }
        },
        AttachPlan::Unserved => {},
    }
    proof {
        assert(calls@ =~= spec_attach_calls(*plan));
    }
    calls
}

/// View attachment is exclusive: a dataset with a view query is
/// always attached as a view, whatever its other settings and
/// whatever connector was resolved, and the only engine call made for
/// it is the view attachment — no connector or acceleration machinery
/// is ever touched.
pub proof fn lemma_view_attachment_exclusive(ds: Dataset, conn: Option<Connector>)
    requires
        is_view_dataset(ds),
    ensures
        plan_of(ds, conn) == AttachPlan::View,
        spec_attach_calls(plan_of(ds, conn)) =~= seq![AttachCall::AttachView],
{
}

} // verus!
