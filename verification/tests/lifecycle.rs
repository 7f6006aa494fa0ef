use runtime::attach::{attach_calls, attachment_plan, AttachCall, AttachPlan};
use runtime::component::{Acceleration, Dataset, Mode, Replication};
use runtime::connector::{Connector, CreateOutcome};
use runtime::depends::verify_dependent_tables;
use runtime::error::Error;
use runtime::pipeline::{
    start_attempt, step_attempt, PipelineAction, PipelineEvent, PipelineOutcome, PipelineState,
};
use runtime::status::ComponentStatus;

fn plain_dataset(name: &str, source: &str) -> Dataset {
    Dataset {
        name: name.to_string(),
        source: source.to_string(),
        params: Vec::new(),
        acceleration: None,
        replication: None,
        mode: Mode::ReadOnly,
        view_sql: None,
    }
}

fn accelerated_dataset(name: &str, source: &str, engine: &str) -> Dataset {
    let mut ds = plain_dataset(name, source);
    ds.acceleration = Some(Acceleration { enabled: true, engine: engine.to_string() });
    ds
}

fn full_connector() -> Connector {
    Connector { has_table_provider: true, has_data_publisher: true }
}

#[test]
fn view_attachment_is_exclusive() {
    // Even with acceleration, replication and a capable connector
    // declared, a view dataset is attached as a view and nothing else.
    let mut ds = accelerated_dataset("v", "demo", "memory");
    ds.replication = Some(Replication { enabled: true });
    ds.mode = Mode::ReadWrite;
    ds.view_sql = Some("SELECT 1".to_string());
    let plan = attachment_plan(&ds, &Some(full_connector()));
    assert_eq!(plan, AttachPlan::View);
    assert_eq!(attach_calls(&plan), vec![AttachCall::AttachView]);
}

#[test]
fn mesh_attach_without_acceleration() {
    let ds = plain_dataset("a", "demo");
    let plan = attachment_plan(&ds, &Some(full_connector()));
    assert_eq!(plan, AttachPlan::Mesh);
    assert_eq!(attach_calls(&plan), vec![AttachCall::AttachMesh]);
}

#[test]
fn accelerated_read_write_replication() {
    let mut ds = accelerated_dataset("b", "demo", "memory");
    ds.mode = Mode::ReadWrite;
    ds.replication = Some(Replication { enabled: true });
    let plan = attachment_plan(&ds, &Some(full_connector()));
    assert_eq!(
        plan,
        AttachPlan::Accelerated {
            publish_backend: true,
            replicate_via_connector: true,
            replication_unsupported: false,
            wire_connector: true,
        }
    );
    assert_eq!(
        attach_calls(&plan),
        vec![
            AttachCall::CreateBackend,
            AttachCall::AttachBackendPublisher,
            AttachCall::AttachConnectorPublisher,
            AttachCall::WireConnector,
        ]
    );
}

#[test]
fn replication_degrades_without_publisher() {
    // The connector cannot accept writes: replication degrades to
    // read-only, logged, not an error.
    let mut ds = accelerated_dataset("b", "demo", "memory");
    ds.mode = Mode::ReadWrite;
    ds.replication = Some(Replication { enabled: true });
    let conn = Connector { has_table_provider: true, has_data_publisher: false };
    let plan = attachment_plan(&ds, &Some(conn));
    assert_eq!(
        plan,
        AttachPlan::Accelerated {
            publish_backend: true,
            replicate_via_connector: false,
            replication_unsupported: true,
            wire_connector: true,
        }
    );
}

#[test]
fn verifier_passes_non_view() {
    let ds = plain_dataset("a", "demo");
    assert!(verify_dependent_tables(&ds, &vec![], &None));
}

#[test]
fn verifier_rejects_missing_dependency() {
    let mut ds = plain_dataset("v", "localhost");
    ds.view_sql = Some("SELECT * FROM t1".to_string());
    let known = vec!["v".to_string(), "t2".to_string()];
    let fetched = Some(vec!["t1".to_string()]);
    assert!(!verify_dependent_tables(&ds, &known, &fetched));
}

#[test]
fn verifier_accepts_declared_dependencies() {
    let mut ds = plain_dataset("v", "localhost");
    ds.view_sql = Some("SELECT * FROM t1".to_string());
    let known = vec!["v".to_string(), "t1".to_string()];
    let fetched = Some(vec!["t1".to_string()]);
    assert!(verify_dependent_tables(&ds, &known, &fetched));
}

#[test]
fn verifier_rejects_failed_analysis() {
    let mut ds = plain_dataset("v", "localhost");
    ds.view_sql = Some("SELECT * FROM t1".to_string());
    assert!(!verify_dependent_tables(&ds, &vec!["t1".to_string()], &None));
}

#[test]
fn missing_dependency_never_reaches_attaching() {
    let mut ds = plain_dataset("v", "localhost");
    ds.view_sql = Some("SELECT * FROM t1".to_string());
    let known = vec!["v".to_string()];
    let (state, action) = start_attempt(&ds);
    assert!(matches!(state, PipelineState::VerifyingDependencies { .. }));
    assert!(matches!(action, PipelineAction::FetchDependentTables));
    let (state, action) = step_attempt(
        &ds,
        &known,
        state,
        PipelineEvent::DependentTables(Some(vec!["t1".to_string()])),
    );
    assert_eq!(state, PipelineState::ResolvingConnector);
    assert!(matches!(action, PipelineAction::Retry { error: None }));
}

#[test]
fn unserved_localhost_dataset() {
    // name "a", source "localhost", no acceleration: no data path at
    // all, so the attempt ends unserved, with no status write beyond
    // the caller's Initializing.
    let ds = plain_dataset("a", "localhost");
    let (state, action) = start_attempt(&ds);
    assert_eq!(state, PipelineState::Done { outcome: PipelineOutcome::Unserved });
    assert!(matches!(action, PipelineAction::Complete { status: None, error: None }));
}

#[test]
fn accelerated_dataset_loads_ready() {
    // name "b", source "demo", acceleration {enabled, "memory"},
    // read-write: backend created, publisher attached under "b",
    // connector wired as source, final status Ready.
    let mut ds = accelerated_dataset("b", "demo", "memory");
    ds.mode = Mode::ReadWrite;
    let mut statuses: Vec<ComponentStatus> = Vec::new();
    statuses.push(ComponentStatus::Initializing);
    let (state, action) = start_attempt(&ds);
    assert_eq!(state, PipelineState::ResolvingConnector);
    assert!(matches!(action, PipelineAction::ResolveConnector));
    let conn = Connector { has_table_provider: true, has_data_publisher: false };
    let (state, action) = step_attempt(
        &ds,
        &vec!["b".to_string()],
        state,
        PipelineEvent::ConnectorResolved(CreateOutcome::Created(conn)),
    );
    assert!(matches!(state, PipelineState::Attaching { .. }));
    let plan = match action {
        PipelineAction::ExecuteAttachment { plan } => plan,
        other => panic!("expected attachment, got {:?}", other),
    };
    assert_eq!(
        attach_calls(&plan),
        vec![
            AttachCall::CreateBackend,
            AttachCall::AttachBackendPublisher,
            AttachCall::WireConnector,
        ]
    );
    let (state, action) =
        step_attempt(&ds, &vec!["b".to_string()], state, PipelineEvent::AttachFinished(None));
    assert_eq!(state, PipelineState::Done { outcome: PipelineOutcome::Ready });
    match action {
        PipelineAction::Complete { status: Some(st), error: None } => statuses.push(st),
        other => panic!("expected completion, got {:?}", other),
    }
    // The observed status sequence of a successful load.
    assert_eq!(statuses, vec![ComponentStatus::Initializing, ComponentStatus::Ready]);
}

#[test]
fn unknown_source_fails_permanently() {
    let ds = plain_dataset("a", "nowhere");
    let (state, _) = start_attempt(&ds);
    let (state, action) = step_attempt(
        &ds,
        &vec![],
        state,
        PipelineEvent::ConnectorResolved(CreateOutcome::UnknownSource),
    );
    assert_eq!(state, PipelineState::Done { outcome: PipelineOutcome::Failed });
    match action {
        PipelineAction::Complete { status: Some(ComponentStatus::Error), error: Some(e) } => {
            assert!(e.is_permanent());
            match e {
                Error::UnknownDataConnector { data_connector } => {
                    assert_eq!(data_connector, "nowhere".to_string());
                },
                other => panic!("expected unknown connector, got {:?}", other),
            }
        },
        other => panic!("expected permanent failure, got {:?}", other),
    }
}

#[test]
fn connector_init_failure_retries() {
    let ds = plain_dataset("a", "demo");
    let (state, _) = start_attempt(&ds);
    let (state, action) = step_attempt(
        &ds,
        &vec![],
        state,
        PipelineEvent::ConnectorResolved(CreateOutcome::InitFailed),
    );
    assert_eq!(state, PipelineState::ResolvingConnector);
    match action {
        PipelineAction::Retry { error: Some(e) } => {
            assert!(!e.is_permanent());
            assert!(matches!(e, Error::UnableToInitializeDataConnector { .. }));
        },
        other => panic!("expected retry, got {:?}", other),
    }
}

#[test]
fn attach_failure_maps_to_its_call() {
    let mut ds = plain_dataset("v", "localhost");
    ds.view_sql = Some("SELECT 1".to_string());
    let known = vec!["v".to_string()];
    let (state, _) = start_attempt(&ds);
    let (state, _) =
        step_attempt(&ds, &known, state, PipelineEvent::DependentTables(Some(vec![])));
    assert!(matches!(state, PipelineState::Attaching { .. }));
    let (state, action) = step_attempt(
        &ds,
        &known,
        state,
        PipelineEvent::AttachFinished(Some(AttachCall::AttachView)),
    );
    assert_eq!(state, PipelineState::ResolvingConnector);
    match action {
        PipelineAction::Retry { error: Some(e) } => {
            assert!(matches!(e, Error::UnableToAttachView));
            assert!(!e.is_permanent());
        },
        other => panic!("expected retry, got {:?}", other),
    }
}

#[test]
fn wiring_failure_names_the_connector() {
    let mut ds = accelerated_dataset("b", "demo", "memory");
    ds.mode = Mode::ReadWrite;
    let (state, _) = start_attempt(&ds);
    let (state, _) = step_attempt(
        &ds,
        &vec![],
        state,
        PipelineEvent::ConnectorResolved(CreateOutcome::Created(full_connector())),
    );
    let (_, action) = step_attempt(
        &ds,
        &vec![],
        state,
        PipelineEvent::AttachFinished(Some(AttachCall::WireConnector)),
    );
    match action {
        PipelineAction::Retry { error: Some(Error::UnableToAttachDataConnector { data_connector }) } => {
            assert_eq!(data_connector, "demo".to_string());
        },
        other => panic!("expected connector attach failure, got {:?}", other),
    }
}

#[test]
fn backend_failure_surfaces_create_error() {
    let ds = accelerated_dataset("b", "localhost", "memory");
    let (state, _) = start_attempt(&ds);
    assert!(matches!(state, PipelineState::Attaching { .. }));
    let (_, action) = step_attempt(
        &ds,
        &vec![],
        state,
        PipelineEvent::AttachFinished(Some(AttachCall::CreateBackend)),
    );
    assert!(matches!(
        action,
        PipelineAction::Retry { error: Some(Error::UnableToCreateBackend) }
    ));
}
