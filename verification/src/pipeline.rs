//! The dataset load pipeline: one attempt of the per-dataset state
//! machine `ResolvingConnector -> VerifyingDependencies -> Attaching
//! -> Done`, with a retry edge back to the start on any transient
//! failure.  The machine only decides; the driver performs the
//! returned action (a registry lookup, an engine call, the fixed
//! retry delay) and reports the outcome as the next event.

use vstd::prelude::*;
use crate::attach::{AttachCall, AttachPlan, attachment_plan, plan_of};
use crate::component::{Dataset, is_view_dataset, localhost_source};
use crate::connector::{Connector, CreateOutcome};
use crate::depends::{spec_verify_dependent_tables, verify_dependent_tables};
use crate::error::Error;
use crate::status::ComponentStatus;

verus! {

/// How one attempt ended.
#[derive(Clone, Copy, PartialEq, Eq, Debug, Structural)]
pub enum PipelineOutcome {
    /// The dataset is attached and serving.
    Ready,
    /// A permanent configuration failure; never retried.
    Failed,
    /// Nothing can serve the dataset; abandoned without an error
    /// status.
    Unserved,
}

/// Where one load attempt currently stands.
#[derive(Clone, Copy, PartialEq, Eq, Debug, Structural)]
pub enum PipelineState {
    ResolvingConnector,
    VerifyingDependencies { connector: Option<Connector> },
    Attaching { connector: Option<Connector> },
    Done { outcome: PipelineOutcome },
}

/// What the driver reports back after performing an action.
#[derive(Clone, Debug)]
pub enum PipelineEvent {
    /// What the connector registry said for the dataset's source.
    ConnectorResolved(CreateOutcome),
    /// The tables the view's query references, or `None` when the
    /// engine could not analyze the query.
    DependentTables(Option<Vec<String>>),
    /// `None` when every attachment call succeeded, else the first
    /// call that failed.
    AttachFinished(Option<AttachCall>),
}

/// What the driver must do next.
#[derive(Clone, Debug)]
pub enum PipelineAction {
    /// Look up the secret for the dataset's source, then ask the
    /// connector registry for a connector; report the outcome.
    ResolveConnector,
    /// Ask the query engine which tables the view references.
    FetchDependentTables,
    /// Run the calls of `spec_attach_calls(plan)` in order against
    /// the query engine; report the first failure, if any.
    ExecuteAttachment { plan: AttachPlan },
    /// Transient failure: log it, bump the load-error counter, wait
    /// the fixed delay and start a fresh attempt.  `None` means the
    /// view's dependencies were not ready yet.
    Retry { error: Option<Error> },
    /// Terminal: write `status` for the dataset if present (`None`
    /// only for an unserved dataset) and bump the load-error counter
    /// if `error` is present.
    Complete { status: Option<ComponentStatus>, error: Option<Error> },
}

/// Which event may answer which state; `Done` accepts none.
pub open spec fn event_fits(state: PipelineState, event: PipelineEvent) -> bool {
    match (state, event) {
        (PipelineState::ResolvingConnector, PipelineEvent::ConnectorResolved(_)) => true,
        (PipelineState::VerifyingDependencies { .. }, PipelineEvent::DependentTables(_)) => true,
        (PipelineState::Attaching { .. }, PipelineEvent::AttachFinished(_)) => true,
        _ => false,
    }
}

pub open spec fn spec_begin_attachment(ds: Dataset, conn: Option<Connector>) -> (PipelineState,
    PipelineAction) {
    if plan_of(ds, conn) is Unserved {
        (
            PipelineState::Done { outcome: PipelineOutcome::Unserved },
            PipelineAction::Complete { status: None, error: None },
        )
    } else {
        (
            PipelineState::Attaching { connector: conn },
            PipelineAction::ExecuteAttachment { plan: plan_of(ds, conn) },
        )
    }
}

pub open spec fn spec_after_resolution(ds: Dataset, conn: Option<Connector>) -> (PipelineState,
    PipelineAction) {
    if is_view_dataset(ds) {
        (
            PipelineState::VerifyingDependencies { connector: conn },
            PipelineAction::FetchDependentTables,
        )
    } else {
        spec_begin_attachment(ds, conn)
    }
}

/// Entry of every attempt.  The reserved source `"localhost"` means
/// "no external connector": the registry is never consulted for it.
pub open spec fn spec_start_attempt(ds: Dataset) -> (PipelineState, PipelineAction) {
    if ds.source@ == localhost_source() {
        spec_after_resolution(ds, None)
    } else {
        (PipelineState::ResolvingConnector, PipelineAction::ResolveConnector)
    }
}

/// The failure each attachment call surfaces as.
pub open spec fn spec_error_for_call(ds: Dataset, call: AttachCall) -> Error {
    match call {
        AttachCall::AttachView => Error::UnableToAttachView,
        AttachCall::CreateBackend => Error::UnableToCreateBackend,
        _ => Error::UnableToAttachDataConnector { data_connector: ds.source },
    }
}

pub open spec fn spec_step_attempt(
    ds: Dataset,
    known: Seq<Seq<char>>,
    state: PipelineState,
    event: PipelineEvent,
) -> (PipelineState, PipelineAction) {
    match (state, event) {
        (PipelineState::ResolvingConnector, PipelineEvent::ConnectorResolved(outcome)) => match
            outcome {
            CreateOutcome::UnknownSource => (
                PipelineState::Done { outcome: PipelineOutcome::Failed },
                PipelineAction::Complete {
                    status: Some(ComponentStatus::Error),
                    error: Some(Error::UnknownDataConnector { data_connector: ds.source }),
                },
            ),
            CreateOutcome::InitFailed => (
                PipelineState::ResolvingConnector,
                PipelineAction::Retry {
                    error: Some(
                        Error::UnableToInitializeDataConnector { data_connector: ds.source },
                    ),
                },
            ),
            CreateOutcome::Created(c) => spec_after_resolution(ds, Some(c)),
        },
        (
            PipelineState::VerifyingDependencies { connector },
            PipelineEvent::DependentTables(fetched),
        ) => {
            if spec_verify_dependent_tables(ds, known, fetched) {
                spec_begin_attachment(ds, connector)
            } else {
                (PipelineState::ResolvingConnector, PipelineAction::Retry { error: None })
            }
        },
        (PipelineState::Attaching { .. }, PipelineEvent::AttachFinished(failed)) => match failed {
            None => (
                PipelineState::Done { outcome: PipelineOutcome::Ready },
                PipelineAction::Complete { status: Some(ComponentStatus::Ready), error: None },
            ),
            Some(call) => (
                PipelineState::ResolvingConnector,
                PipelineAction::Retry { error: Some(spec_error_for_call(ds, call)) },
            ),
        },
        _ => (state, PipelineAction::Retry { error: None }),
    }
}

fn begin_attachment(ds: &Dataset, conn: Option<Connector>) -> (r: (PipelineState, PipelineAction))
    ensures
        r == spec_begin_attachment(*ds, conn),
{
    let plan = attachment_plan(ds, &conn);
    match plan {
        AttachPlan::Unserved => (
            PipelineState::Done { outcome: PipelineOutcome::Unserved },
            PipelineAction::Complete { status: None, error: None },
        ),
        _ => (
            PipelineState::Attaching { connector: conn },
            PipelineAction::ExecuteAttachment { plan },
        ),
    }
}

fn after_resolution(ds: &Dataset, conn: Option<Connector>) -> (r: (PipelineState, PipelineAction))
    ensures
        r == spec_after_resolution(*ds, conn),
{
    if ds.view_sql.is_some() {
        (
            PipelineState::VerifyingDependencies { connector: conn },
            PipelineAction::FetchDependentTables,
        )
    } else {
        begin_attachment(ds, conn)
    }
}

fn error_for_call(ds: &Dataset, call: AttachCall) -> (r: Error)
    ensures
        r == spec_error_for_call(*ds, call),
{
    match call {
        AttachCall::AttachView => Error::UnableToAttachView,
        AttachCall::CreateBackend => Error::UnableToCreateBackend,
        _ => Error::UnableToAttachDataConnector { data_connector: ds.source.clone() },
    }
}

/// Starts a fresh load attempt for `ds`.
pub fn start_attempt(ds: &Dataset) -> (r: (PipelineState, PipelineAction))
    ensures
        r == spec_start_attempt(*ds),
{
    let localhost: String = "localhost".to_owned();
    if ds.source.eq(&localhost) {
        after_resolution(ds, None)
    } else {
        (PipelineState::ResolvingConnector, PipelineAction::ResolveConnector)
    }
}

/// Advances an attempt by one event.  `known` is the full list of
/// dataset names declared in the current specification.
pub fn step_attempt(
    ds: &Dataset,
    known: &Vec<String>,
    state: PipelineState,
    event: PipelineEvent,
) -> (r: (PipelineState, PipelineAction))
    requires
        event_fits(state, event),
    ensures
        r == spec_step_attempt(*ds, known.deep_view(), state, event),
{
    match (state, event) {
        (PipelineState::ResolvingConnector, PipelineEvent::ConnectorResolved(outcome)) => match
            outcome {
            CreateOutcome::UnknownSource => (
                PipelineState::Done { outcome: PipelineOutcome::Failed },
                PipelineAction::Complete {
                    status: Some(ComponentStatus::Error),
                    error: Some(
                        Error::UnknownDataConnector { data_connector: ds.source.clone() },
                    ),
                },
            ),
            CreateOutcome::InitFailed => (
                PipelineState::ResolvingConnector,
                PipelineAction::Retry {
                    error: Some(
                        Error::UnableToInitializeDataConnector {
                            data_connector: ds.source.clone(),
                        },
                    ),
                },
            ),
            CreateOutcome::Created(c) => after_resolution(ds, Some(c)),
        },
        (
            PipelineState::VerifyingDependencies { connector },
            PipelineEvent::DependentTables(fetched),
        ) => {
            if verify_dependent_tables(ds, known, &fetched) {
                begin_attachment(ds, connector)
            } else {
                (PipelineState::ResolvingConnector, PipelineAction::Retry { error: None })
            }
        },
        (PipelineState::Attaching { .. }, PipelineEvent::AttachFinished(failed)) => match failed {
            None => (
                PipelineState::Done { outcome: PipelineOutcome::Ready },
                PipelineAction::Complete { status: Some(ComponentStatus::Ready), error: None },
            ),
            Some(call) => (
                PipelineState::ResolvingConnector,
                PipelineAction::Retry { error: Some(error_for_call(ds, call)) },
            ),
        },
        _ => (state, PipelineAction::Retry { error: None }),
    }
}

/// How a step's terminal action relates to its terminal state: a
/// status is written by `Complete` alone, `Complete` comes with
/// `Done` alone, and the status written matches the outcome reached
/// (`Ready`, `Error` for a permanent failure, none for unserved).
pub open spec fn step_shape(r: (PipelineState, PipelineAction)) -> bool {
    &&& (r.1 is Complete <==> r.0 is Done)
    &&& (r.0 == (PipelineState::Done { outcome: PipelineOutcome::Ready }) ==> (
    r.1 matches PipelineAction::Complete { status, error: _ } && status == Some(
        ComponentStatus::Ready,
    )))
    &&& (r.0 == (PipelineState::Done { outcome: PipelineOutcome::Failed }) ==> (
    r.1 matches PipelineAction::Complete { status, error: _ } && status == Some(
        ComponentStatus::Error,
    )))
    &&& (r.0 == (PipelineState::Done { outcome: PipelineOutcome::Unserved }) ==> (
    r.1 matches PipelineAction::Complete { status, error: _ } && status is None))
}

proof fn lemma_start_shape(ds: Dataset)
    ensures
        step_shape(spec_start_attempt(ds)),
        spec_start_attempt(ds).0 != (PipelineState::Done { outcome: PipelineOutcome::Ready }),
        spec_start_attempt(ds).0 != (PipelineState::Done { outcome: PipelineOutcome::Failed }),
{
}

proof fn lemma_step_shape(
    ds: Dataset,
    known: Seq<Seq<char>>,
    state: PipelineState,
    event: PipelineEvent,
)
    requires
        event_fits(state, event),
    ensures
        step_shape(spec_step_attempt(ds, known, state, event)),
{
}

/// The status writes a trace of step outputs performs, in order.
pub open spec fn statuses_of(tr: Seq<(PipelineState, PipelineAction)>) -> Seq<ComponentStatus>
    decreases tr.len(),
{
    if tr.len() == 0 {
        Seq::empty()
    } else {
        statuses_of(tr.drop_last()) + (match tr.last().1 {
            PipelineAction::Complete { status: Some(st), error: _ } => seq![st],
            _ => Seq::empty(),
        })
    }
}

/// `next` is a possible successor of `prev` within one attempt: some
/// event that fits `prev`'s state produces it.
pub open spec fn steps_from(
    ds: Dataset,
    known: Seq<Seq<char>>,
    prev: (PipelineState, PipelineAction),
    next: (PipelineState, PipelineAction),
) -> bool {
    exists|e: PipelineEvent|
        event_fits(prev.0, e) && next == spec_step_attempt(ds, known, prev.0, e)
}

/// `next` can follow `prev` in the full pipeline: an event answers
/// `prev`'s state, or `prev` asked for a retry and, after the fixed
/// delay, a fresh attempt starts over.
pub open spec fn follows(
    ds: Dataset,
    known: Seq<Seq<char>>,
    prev: (PipelineState, PipelineAction),
    next: (PipelineState, PipelineAction),
) -> bool {
    steps_from(ds, known, prev, next) || (prev.1 is Retry && next == spec_start_attempt(ds))
}

/// A run of the whole load pipeline for one dataset, retries
/// included, as the driver observes it: the first attempt's start
/// output followed by successive step outputs and restarts.
pub open spec fn is_pipeline_run(
    ds: Dataset,
    known: Seq<Seq<char>>,
    tr: Seq<(PipelineState, PipelineAction)>,
) -> bool {
    &&& tr.len() >= 1
    &&& tr[0] == spec_start_attempt(ds)
    &&& forall|i: int|
        0 < i < tr.len() ==> #[trigger] follows(ds, known, tr[i - 1], tr[i])
}

/// Status discipline of a load pipeline: however many attempts a run
/// takes, the status registry is written only by the terminal
/// transition, exactly once — `Ready` exactly when the run ends
/// attached, `Error` exactly when it ends in a permanent failure,
/// and not at all while it is still running, retrying, or when it
/// ends unserved.  Together with the `Initializing` the caller
/// writes immediately before starting the pipeline, an observer of a
/// successful load sees Initializing followed by Ready, and of a
/// permanently failed one Initializing followed by Error, with
/// nothing in between.
pub proof fn lemma_pipeline_status_writes(
    ds: Dataset,
    known: Seq<Seq<char>>,
    tr: Seq<(PipelineState, PipelineAction)>,
)
    requires
        is_pipeline_run(ds, known, tr),
    ensures
        step_shape(tr.last()),
        tr.last().0 == (PipelineState::Done { outcome: PipelineOutcome::Ready })
            ==> statuses_of(tr) =~= seq![ComponentStatus::Ready],
        tr.last().0 == (PipelineState::Done { outcome: PipelineOutcome::Failed })
            ==> statuses_of(tr) =~= seq![ComponentStatus::Error],
        (tr.last().0 != (PipelineState::Done { outcome: PipelineOutcome::Ready })
            && tr.last().0 != (PipelineState::Done { outcome: PipelineOutcome::Failed }))
            ==> statuses_of(tr) =~= Seq::<ComponentStatus>::empty(),
    decreases tr.len(),
{
    if tr.len() == 1 {
        lemma_start_shape(ds);
        assert(tr.drop_last().len() == 0);
        assert(statuses_of(tr.drop_last()) =~= Seq::<ComponentStatus>::empty());
        assert(tr.last() == tr[0]);
        assert(step_shape(tr[0]));
    } else {
        let n = tr.len() as int;
        let prev = tr.drop_last();
        assert(prev[0] == tr[0]);
        assert forall|i: int| 0 < i < prev.len() implies #[trigger] follows(
            ds,
            known,
            prev[i - 1],
            prev[i],
        ) by {
            assert(prev[i - 1] == tr[i - 1]);
            assert(prev[i] == tr[i]);
            assert(follows(ds, known, tr[i - 1], tr[i]));
        }
        lemma_pipeline_status_writes(ds, known, prev);
        assert(prev.last() == tr[n - 2]);
        assert(follows(ds, known, tr[n - 2], tr[n - 1]));
        if steps_from(ds, known, tr[n - 2], tr[n - 1]) {
            let e = choose|e: PipelineEvent|
                #[trigger] event_fits(tr[n - 2].0, e) && tr[n - 1] == spec_step_attempt(
                    ds,
                    known,
                    tr[n - 2].0,
                    e,
                );
            assert(!(tr[n - 2].0 is Done));
            assert(statuses_of(prev) =~= Seq::<ComponentStatus>::empty());
            lemma_step_shape(ds, known, tr[n - 2].0, e);
            assert(step_shape(tr[n - 1]));
        } else {
            // A restart after a retry: the element before it wrote no
            // status, and the run resumes from the start output.
            assert(tr[n - 2].1 is Retry);
            assert(!(tr[n - 2].1 is Complete));
            assert(!(tr[n - 2].0 is Done));
            assert(statuses_of(prev) =~= Seq::<ComponentStatus>::empty());
            lemma_start_shape(ds);
            assert(step_shape(tr[n - 1]));
        }
        assert(tr.last() == tr[n - 1]);
    }
}

/// A view attempt that finds a referenced table missing retries: the
/// verifier answers no and the attempt never reaches the attaching
/// stage.
pub proof fn lemma_missing_dependency_blocks_attach(
    ds: Dataset,
    known: Seq<Seq<char>>,
    conn: Option<Connector>,
    deps: Vec<String>,
    i: int,
)
    requires
        is_view_dataset(ds),
        0 <= i < deps.deep_view().len(),
        !known.contains(deps.deep_view()[i]),
    ensures
        !spec_verify_dependent_tables(ds, known, Some(deps)),
        spec_step_attempt(
            ds,
            known,
            PipelineState::VerifyingDependencies { connector: conn },
            PipelineEvent::DependentTables(Some(deps)),
        ) == (
            PipelineState::ResolvingConnector,
            PipelineAction::Retry { error: None::<Error> },
        ),
{
}

} // verus!
