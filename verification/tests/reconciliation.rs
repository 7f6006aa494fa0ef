use runtime::component::{Acceleration, Dataset, Mode, ModelSpec, Snapshot};
use runtime::connector::{Connector, CreateOutcome};
use runtime::engine::TableRegistry;
use runtime::pipeline::{start_attempt, step_attempt, PipelineEvent, PipelineOutcome, PipelineState};
use runtime::reconcile::{action_initial_status, action_name, reconcile, ReconcileAction};
use runtime::runtime::Runtime;
use runtime::status::ComponentStatus;

fn plain_dataset(name: &str, source: &str) -> Dataset {
    Dataset {
        name: name.to_string(),
        source: source.to_string(),
        params: Vec::new(),
        acceleration: None,
        replication: None,
        mode: Mode::ReadOnly,
        view_sql: None,
    }
}

fn accelerated_dataset(name: &str, source: &str, engine: &str) -> Dataset {
    let mut ds = plain_dataset(name, source);
    ds.acceleration = Some(Acceleration { enabled: true, engine: engine.to_string() });
    ds
}

fn model(name: &str, from: &str) -> ModelSpec {
    ModelSpec { name: name.to_string(), from: from.to_string(), params: Vec::new() }
}

fn snapshot(datasets: Vec<Dataset>, models: Vec<ModelSpec>) -> Snapshot {
    Snapshot { secret_store: "env".to_string(), datasets, models }
}

#[test]
fn diff_emits_load_for_new_dataset() {
    let old = snapshot(vec![], vec![]);
    let new = snapshot(vec![plain_dataset("a", "demo")], vec![]);
    let acts = reconcile(&old, &new);
    assert_eq!(acts.len(), 1);
    assert!(matches!(&acts[0], ReconcileAction::LoadDataset { name } if name == "a"));
    assert_eq!(action_initial_status(&acts[0]), ComponentStatus::Initializing);
}

#[test]
fn diff_is_empty_for_equal_snapshots() {
    let old = snapshot(vec![plain_dataset("a", "demo")], vec![model("m", "file:m")]);
    let new = snapshot(vec![plain_dataset("a", "demo")], vec![model("m", "file:m")]);
    assert_eq!(reconcile(&old, &new).len(), 0);
}

#[test]
fn isolated_value_change_yields_single_update() {
    // Only dataset "b" changed its value: exactly one Refreshing
    // update for "b", no action for any other entity.
    let old = snapshot(
        vec![plain_dataset("a", "demo"), accelerated_dataset("b", "demo", "memory")],
        vec![model("m", "file:m")],
    );
    let new = snapshot(
        vec![plain_dataset("a", "demo"), accelerated_dataset("b", "demo", "duckdb")],
        vec![model("m", "file:m")],
    );
    let acts = reconcile(&old, &new);
    assert_eq!(acts.len(), 1);
    assert!(matches!(&acts[0], ReconcileAction::UpdateDataset { name } if name == "b"));
    assert_eq!(action_initial_status(&acts[0]), ComponentStatus::Refreshing);
}

#[test]
fn diff_orders_removals_after_additions() {
    // New dataset and model come first, then the model removal, then
    // the dataset removal.
    let old = snapshot(vec![plain_dataset("gone", "demo")], vec![model("old_m", "file:o")]);
    let new = snapshot(vec![plain_dataset("fresh", "demo")], vec![model("new_m", "file:n")]);
    let acts = reconcile(&old, &new);
    assert_eq!(acts.len(), 4);
    assert!(matches!(&acts[0], ReconcileAction::LoadDataset { name } if name == "fresh"));
    assert!(matches!(&acts[1], ReconcileAction::LoadModel { name } if name == "new_m"));
    assert!(matches!(&acts[2], ReconcileAction::RemoveModel { name } if name == "old_m"));
    assert!(matches!(&acts[3], ReconcileAction::RemoveDataset { name } if name == "gone"));
}

#[test]
fn runtime_startup_marks_initializing() {
    let snap = snapshot(
        vec![plain_dataset("a", "demo"), plain_dataset("b", "demo")],
        vec![model("m", "file:m")],
    );
    let mut rt = Runtime::new(Some(snap));
    let ds_acts = rt.load_datasets();
    assert_eq!(ds_acts.len(), 2);
    assert!(matches!(&ds_acts[0], ReconcileAction::LoadDataset { name } if name == "a"));
    assert!(matches!(&ds_acts[1], ReconcileAction::LoadDataset { name } if name == "b"));
    let m_acts = rt.load_models();
    assert_eq!(m_acts.len(), 1);
    assert_eq!(
        rt.dataset_status.get(&"a".to_string()),
        Some(ComponentStatus::Initializing)
    );
    assert_eq!(
        rt.dataset_status.get(&"b".to_string()),
        Some(ComponentStatus::Initializing)
    );
    assert_eq!(rt.model_status.get(&"m".to_string()), Some(ComponentStatus::Initializing));
}

#[test]
fn first_snapshot_is_accepted_silently() {
    let mut rt = Runtime::new(None);
    let acts = rt.accept_snapshot(snapshot(vec![plain_dataset("a", "demo")], vec![]));
    assert_eq!(acts.len(), 0);
    assert!(rt.current.is_some());
}

#[test]
fn equal_snapshot_changes_nothing() {
    let mut rt = Runtime::new(Some(snapshot(vec![plain_dataset("a", "demo")], vec![])));
    let acts = rt.accept_snapshot(snapshot(vec![plain_dataset("a", "demo")], vec![]));
    assert_eq!(acts.len(), 0);
    assert_eq!(rt.dataset_status.get(&"a".to_string()), None);
}

#[test]
fn acceleration_change_reloads_one_generation() {
    // snapshot 2 replaces dataset "b"'s acceleration engine: the
    // reconciler emits Refreshing, the table is removed and reloaded,
    // and the engine holds exactly one registration for "b".
    let snap1 = snapshot(vec![accelerated_dataset("b", "demo", "memory")], vec![]);
    let snap2 = snapshot(vec![accelerated_dataset("b", "demo", "duckdb")], vec![]);
    let mut rt = Runtime::new(Some(snap1));
    let mut engine = TableRegistry::new();
    let mut observed: Vec<ComponentStatus> = Vec::new();

    // First load of "b" registers its table.
    rt.set_dataset_status("b".to_string(), ComponentStatus::Initializing);
    engine.register_table("b".to_string());
    rt.set_dataset_status("b".to_string(), ComponentStatus::Ready);

    let acts = rt.accept_snapshot(snap2);
    assert_eq!(acts.len(), 1);
    assert!(matches!(&acts[0], ReconcileAction::UpdateDataset { name } if name == "b"));
    observed.push(rt.dataset_status.get(&"b".to_string()).unwrap());

    // The update path: remove, then reload under the new settings.
    let name = action_name(&acts[0]).clone();
    assert!(engine.remove_table(&name));
    rt.set_dataset_status(name.clone(), ComponentStatus::Initializing);
    observed.push(rt.dataset_status.get(&"b".to_string()).unwrap());

    let ds = rt.current.as_ref().unwrap().datasets[0].clone();
    let (state, _) = start_attempt(&ds);
    let conn = Connector { has_table_provider: true, has_data_publisher: false };
    let (state, _) = step_attempt(
        &ds,
        &vec!["b".to_string()],
        state,
        PipelineEvent::ConnectorResolved(CreateOutcome::Created(conn)),
    );
    let (state, _) =
        step_attempt(&ds, &vec!["b".to_string()], state, PipelineEvent::AttachFinished(None));
    assert_eq!(state, PipelineState::Done { outcome: PipelineOutcome::Ready });
    engine.register_table(name.clone());
    rt.set_dataset_status(name, ComponentStatus::Ready);
    observed.push(rt.dataset_status.get(&"b".to_string()).unwrap());

    assert_eq!(
        observed,
        vec![ComponentStatus::Refreshing, ComponentStatus::Initializing, ComponentStatus::Ready]
    );
    assert_eq!(engine.table_count(), 1);
    assert!(engine.table_exists(&"b".to_string()));
}

#[test]
fn removed_model_is_disabled_before_teardown() {
    // model "m" present in snapshot 1, absent in snapshot 2: Disabled
    // is written before the removal, and the removal reports true so
    // the driver decrements the model count gauge.
    let snap1 = snapshot(vec![], vec![model("m", "file:m")]);
    let snap2 = snapshot(vec![], vec![]);
    let mut rt = Runtime::new(Some(snap1));
    rt.set_model_status("m".to_string(), ComponentStatus::Initializing);
    rt.load_model(&"m".to_string(), Some(41));
    assert_eq!(rt.model_status.get(&"m".to_string()), Some(ComponentStatus::Ready));

    let acts = rt.accept_snapshot(snap2);
    assert_eq!(acts.len(), 1);
    assert!(matches!(&acts[0], ReconcileAction::RemoveModel { name } if name == "m"));
    assert_eq!(action_initial_status(&acts[0]), ComponentStatus::Disabled);
    // accept_snapshot stamped the Disabled status before the driver
    // runs the teardown.
    assert_eq!(rt.model_status.get(&"m".to_string()), Some(ComponentStatus::Disabled));
    let removed = rt.remove_model(&"m".to_string());
    assert!(removed);
    assert_eq!(rt.models.get(&"m".to_string()), None);
}

#[test]
fn model_load_failure_keeps_prior_entry() {
    let mut rt = Runtime::new(None);
    rt.set_model_status("m".to_string(), ComponentStatus::Initializing);
    rt.load_model(&"m".to_string(), Some(7));
    assert_eq!(rt.models.get(&"m".to_string()), Some(7));
    // A failed reload reports Error and leaves the entry untouched.
    rt.set_model_status("m".to_string(), ComponentStatus::Refreshing);
    rt.load_model(&"m".to_string(), None);
    assert_eq!(rt.model_status.get(&"m".to_string()), Some(ComponentStatus::Error));
    assert_eq!(rt.models.get(&"m".to_string()), Some(7));
}

#[test]
fn remove_model_absent_is_noop() {
    let mut rt = Runtime::new(None);
    rt.load_model(&"kept".to_string(), Some(3));
    assert!(!rt.remove_model(&"phantom".to_string()));
    assert_eq!(rt.models.get(&"kept".to_string()), Some(3));
}

#[test]
fn load_secrets_recognized_configures() {
    let mut rt = Runtime::new(None);
    rt.load_secrets(Some("env".to_string()));
    assert_eq!(rt.secrets.store, Some("env".to_string()));
    // An unrecognized declaration leaves the provider untouched.
    rt.load_secrets(None);
    assert_eq!(rt.secrets.store, Some("env".to_string()));
}
