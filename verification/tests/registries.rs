use runtime::component::{dataset_eq, snapshot_eq, Acceleration, Dataset, Mode, ModelSpec, Snapshot};
use runtime::engine::{acceleration_engine_label, TableRegistry};
use runtime::registry::NameMap;
use runtime::secrets::SecretsProvider;
use runtime::status::{ComponentStatus, StatusRegistry};

fn plain_dataset(name: &str, source: &str) -> Dataset {
    Dataset {
        name: name.to_string(),
        source: source.to_string(),
        params: Vec::new(),
        acceleration: None,
        replication: None,
        mode: Mode::ReadOnly,
        view_sql: None,
    }
}

#[test]
fn name_map_insert_get() {
    let mut m: NameMap<u64> = NameMap::new();
    assert_eq!(m.len(), 0);
    m.insert("a".to_string(), 1);
    m.insert("b".to_string(), 2);
    assert_eq!(m.len(), 2);
    assert_eq!(m.get(&"a".to_string()), Some(1));
    assert_eq!(m.get(&"b".to_string()), Some(2));
    assert_eq!(m.get(&"c".to_string()), None);
}

#[test]
fn name_map_insert_overwrites() {
    let mut m: NameMap<u64> = NameMap::new();
    m.insert("a".to_string(), 1);
    m.insert("a".to_string(), 7);
    assert_eq!(m.len(), 1);
    assert_eq!(m.get(&"a".to_string()), Some(7));
}

#[test]
fn name_map_remove_absent_is_noop() {
    let mut m: NameMap<u64> = NameMap::new();
    m.insert("a".to_string(), 1);
    m.insert("b".to_string(), 2);
    assert!(!m.remove(&"zzz".to_string()));
    assert_eq!(m.len(), 2);
    assert_eq!(m.get(&"a".to_string()), Some(1));
    assert_eq!(m.get(&"b".to_string()), Some(2));
}

#[test]
fn name_map_remove_present() {
    let mut m: NameMap<u64> = NameMap::new();
    m.insert("a".to_string(), 1);
    m.insert("b".to_string(), 2);
    assert!(m.remove(&"a".to_string()));
    assert_eq!(m.len(), 1);
    assert_eq!(m.get(&"a".to_string()), None);
    assert_eq!(m.get(&"b".to_string()), Some(2));
}

#[test]
fn status_registry_last_write_wins() {
    let mut st: StatusRegistry = NameMap::new();
    st.insert("ds".to_string(), ComponentStatus::Initializing);
    st.insert("ds".to_string(), ComponentStatus::Ready);
    assert_eq!(st.get(&"ds".to_string()), Some(ComponentStatus::Ready));
    st.insert("ds".to_string(), ComponentStatus::Refreshing);
    assert_eq!(st.get(&"ds".to_string()), Some(ComponentStatus::Refreshing));
}

#[test]
fn table_registry_remove_absent_is_noop() {
    let mut t = TableRegistry::new();
    t.register_table("a".to_string());
    assert!(!t.remove_table(&"missing".to_string()));
    assert!(t.table_exists(&"a".to_string()));
    assert_eq!(t.table_count(), 1);
}

#[test]
fn table_registry_register_is_set_like() {
    let mut t = TableRegistry::new();
    t.register_table("a".to_string());
    t.register_table("a".to_string());
    assert_eq!(t.table_count(), 1);
    assert!(t.remove_table(&"a".to_string()));
    assert!(!t.table_exists(&"a".to_string()));
    assert_eq!(t.table_count(), 0);
}

#[test]
fn secrets_provider_lifecycle() {
    let mut sp = SecretsProvider::new();
    assert!(sp.store.is_none());
    sp.configure("env".to_string());
    assert_eq!(sp.store, Some("env".to_string()));
    sp.put_secret("pg".to_string(), 11);
    assert_eq!(sp.get_secret(&"pg".to_string()), Some(11));
    assert_eq!(sp.get_secret(&"s3".to_string()), None);
    // reconfiguration drops bundles of the previous backend
    sp.configure("keyring".to_string());
    assert_eq!(sp.get_secret(&"pg".to_string()), None);
}

#[test]
fn engine_label_reports_enabled_engine() {
    let mut ds = plain_dataset("a", "demo");
    ds.acceleration = Some(Acceleration { enabled: true, engine: "memory".to_string() });
    assert_eq!(acceleration_engine_label(&ds), "memory".to_string());
}

#[test]
fn engine_label_none_when_disabled_or_missing() {
    let mut ds = plain_dataset("a", "demo");
    assert_eq!(acceleration_engine_label(&ds), "None".to_string());
    ds.acceleration = Some(Acceleration { enabled: false, engine: "memory".to_string() });
    assert_eq!(acceleration_engine_label(&ds), "None".to_string());
}

#[test]
fn dataset_equality_notices_parameter_change() {
    let mut a = plain_dataset("a", "demo");
    a.params.push(("key".to_string(), "one".to_string()));
    let mut b = plain_dataset("a", "demo");
    b.params.push(("key".to_string(), "one".to_string()));
    assert!(dataset_eq(&a, &b));
    b.params[0].1 = "two".to_string();
    assert!(!dataset_eq(&a, &b));
}

#[test]
fn snapshot_equality_notices_model_change() {
    let m = ModelSpec { name: "m".to_string(), from: "file:m".to_string(), params: Vec::new() };
    let a = Snapshot { secret_store: "env".to_string(), datasets: vec![], models: vec![m.clone()] };
    let mut b = Snapshot {
        secret_store: "env".to_string(),
        datasets: vec![],
        models: vec![m],
    };
    assert!(snapshot_eq(&a, &b));
    b.models[0].from = "file:other".to_string();
    assert!(!snapshot_eq(&a, &b));
}

#[test]
fn get_all_reports_each_name_once() {
    let mut st: StatusRegistry = NameMap::new();
    st.insert("a".to_string(), ComponentStatus::Initializing);
    st.insert("b".to_string(), ComponentStatus::Ready);
    st.insert("a".to_string(), ComponentStatus::Error);
    let mut all = st.get_all();
    all.sort_by(|x, y| x.0.cmp(&y.0));
    assert_eq!(
        all,
        vec![
            ("a".to_string(), ComponentStatus::Error),
            ("b".to_string(), ComponentStatus::Ready),
        ]
    );
}
