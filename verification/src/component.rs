//! The declarative data model: dataset and model specifications and
//! full specification snapshots, together with the value-equality
//! relation the reconciler diffs snapshots by.

use vstd::prelude::*;

verus! {

/// How a dataset may be accessed once attached.
#[derive(Clone, Copy, PartialEq, Eq, Debug, Structural)]
pub enum Mode {
    ReadOnly,
    ReadWrite,
}

/// Local-materialization (acceleration) settings of a dataset.
#[derive(Clone, Debug)]
pub struct Acceleration {
    pub enabled: bool,
    pub engine: String,
}

/// Write-replication settings of a dataset.
#[derive(Clone, Copy, PartialEq, Eq, Debug, Structural)]
pub struct Replication {
    pub enabled: bool,
}

/// A declaratively specified dataset.  `name` is the unique key a
/// snapshot refers to it by; `source` identifies the connector that
/// feeds it, with the literal `"localhost"` reserved to mean "no
/// external connector".  A dataset with `view_sql` present is a view
/// over other datasets and has no storage of its own.
#[derive(Clone, Debug)]
pub struct Dataset {
    pub name: String,
    pub source: String,
    pub params: Vec<(String, String)>,
    pub acceleration: Option<Acceleration>,
    pub replication: Option<Replication>,
    pub mode: Mode,
    pub view_sql: Option<String>,
}

/// A declaratively specified model; `from` names the source the model
/// is materialized from.
#[derive(Clone, Debug)]
pub struct ModelSpec {
    pub name: String,
    pub from: String,
    pub params: Vec<(String, String)>,
}

/// One full specification snapshot: everything declared at an instant,
/// as the specification watcher hands it over.
#[derive(Clone, Debug)]
pub struct Snapshot {
    pub secret_store: String,
    pub datasets: Vec<Dataset>,
    pub models: Vec<ModelSpec>,
}

pub open spec fn is_view_dataset(ds: Dataset) -> bool {
    ds.view_sql is Some
}

pub open spec fn acceleration_enabled(ds: Dataset) -> bool {
    match ds.acceleration {
        Some(acc) => acc.enabled,
        None => false,
    }
}

pub open spec fn replication_enabled(ds: Dataset) -> bool {
    match ds.replication {
        Some(rep) => rep.enabled,
        None => false,
    }
}

/// The reserved source that stands for "no external connector".
pub open spec fn localhost_source() -> Seq<char> {
    "localhost"@
}

pub open spec fn acceleration_eqv(a: Option<Acceleration>, b: Option<Acceleration>) -> bool {
    match (a, b) {
        (Option::None, Option::None) => true,
        (Option::Some(x), Option::Some(y)) => x.enabled == y.enabled && x.engine@ == y.engine@,
        _ => false,
    }
}

pub open spec fn opt_string_eqv(a: Option<String>, b: Option<String>) -> bool {
    match (a, b) {
        (Option::None, Option::None) => true,
        (Option::Some(x), Option::Some(y)) => x@ == y@,
        _ => false,
    }
}

/// Value equality of two datasets: every declared field agrees.
pub open spec fn dataset_eqv(a: Dataset, b: Dataset) -> bool {
    &&& a.name@ == b.name@
    &&& a.source@ == b.source@
    &&& a.params.deep_view() == b.params.deep_view()
    &&& acceleration_eqv(a.acceleration, b.acceleration)
    &&& a.replication == b.replication
    &&& a.mode == b.mode
    &&& opt_string_eqv(a.view_sql, b.view_sql)
}

/// Value equality of two model specifications.
pub open spec fn model_eqv(a: ModelSpec, b: ModelSpec) -> bool {
    &&& a.name@ == b.name@
    &&& a.from@ == b.from@
    &&& a.params.deep_view() == b.params.deep_view()
}

pub open spec fn has_dataset_named(s: Seq<Dataset>, name: Seq<char>) -> bool {
    exists|i: int| 0 <= i < s.len() && s[i].name@ == name
}

pub open spec fn dataset_named(s: Seq<Dataset>, name: Seq<char>) -> Dataset {
    s[choose|i: int| 0 <= i < s.len() && s[i].name@ == name]
}

pub open spec fn has_model_named(s: Seq<ModelSpec>, name: Seq<char>) -> bool {
    exists|i: int| 0 <= i < s.len() && s[i].name@ == name
}

pub open spec fn model_named(s: Seq<ModelSpec>, name: Seq<char>) -> ModelSpec {
    s[choose|i: int| 0 <= i < s.len() && s[i].name@ == name]
}

pub open spec fn unique_dataset_names(s: Seq<Dataset>) -> bool {
    forall|i: int, j: int| 0 <= i < j < s.len() ==> s[i].name@ != s[j].name@
}

pub open spec fn unique_model_names(s: Seq<ModelSpec>) -> bool {
    forall|i: int, j: int| 0 <= i < j < s.len() ==> s[i].name@ != s[j].name@
}

/// A well-formed snapshot never declares two entities of one kind
/// under one name.
pub open spec fn snapshot_wf(s: Snapshot) -> bool {
    unique_dataset_names(s.datasets@) && unique_model_names(s.models@)
}

/// Compares two parameter lists entry by entry.
pub fn string_pairs_eq(a: &Vec<(String, String)>, b: &Vec<(String, String)>) -> (r: bool)
    ensures
        r == (a.deep_view() == b.deep_view()),
{
    if a.len() != b.len() {
        assert(a.deep_view().len() == a@.len());
        assert(b.deep_view().len() == b@.len());
        return false;
    }
    let n = a.len();
    let mut i: usize = 0;
    while i < n
        invariant
            n == a@.len() && n == b@.len(),
            0 <= i <= n,
            forall|j: int| 0 <= j < i ==> a.deep_view()[j] == b.deep_view()[j],
        decreases n - i,
    {
        let keys_eq = a[i].0.eq(&b[i].0);
        let vals_eq = a[i].1.eq(&b[i].1);
        if !(keys_eq && vals_eq) {
            assert(a.deep_view()[i as int] != b.deep_view()[i as int]);
            return false;
        }
        assert(a.deep_view()[i as int] == b.deep_view()[i as int]);
        i += 1;
    }
    proof {
        assert(a.deep_view() =~= b.deep_view());
    }
    true
}

/// Decides value equality of two datasets, the relation the
/// reconciler treats as "unchanged".
pub fn dataset_eq(a: &Dataset, b: &Dataset) -> (r: bool)
    ensures
        r == dataset_eqv(*a, *b),
{
    let names_eq = a.name.eq(&b.name);
    let sources_eq = a.source.eq(&b.source);
    let params_eq = string_pairs_eq(&a.params, &b.params);
    let accel_eq = match (&a.acceleration, &b.acceleration) {
        (Option::None, Option::None) => true,
        (Option::Some(x), Option::Some(y)) => x.enabled == y.enabled && x.engine.eq(&y.engine),
        _ => false,
    };
    let repl_eq = match (&a.replication, &b.replication) {
        (Option::None, Option::None) => true,
        (Option::Some(x), Option::Some(y)) => x.enabled == y.enabled,
        _ => false,
    };
    let modes_eq = match (a.mode, b.mode) {
        (Mode::ReadOnly, Mode::ReadOnly) => true,
        (Mode::ReadWrite, Mode::ReadWrite) => true,
        _ => false,
    };
    let views_eq = match (&a.view_sql, &b.view_sql) {
        (Option::None, Option::None) => true,
        (Option::Some(x), Option::Some(y)) => x.eq(y),
        _ => false,
    };
    names_eq && sources_eq && params_eq && accel_eq && repl_eq && modes_eq && views_eq
}

/// Value equality of two snapshots: the same entities with the same
/// values, and the same secret-store declaration.
pub open spec fn snapshot_eqv(a: Snapshot, b: Snapshot) -> bool {
    &&& a.secret_store@ == b.secret_store@
    &&& a.datasets@.len() == b.datasets@.len()
    &&& forall|i: int| 0 <= i < a.datasets@.len() ==> dataset_eqv(a.datasets@[i], b.datasets@[i])
    &&& a.models@.len() == b.models@.len()
    &&& forall|i: int| 0 <= i < a.models@.len() ==> model_eqv(a.models@[i], b.models@[i])
}

/// Decides value equality of two model specifications.
pub fn model_eq(a: &ModelSpec, b: &ModelSpec) -> (r: bool)
    ensures
        r == model_eqv(*a, *b),
{
    let names_eq = a.name.eq(&b.name);
    let from_eq = a.from.eq(&b.from);
    let params_eq = string_pairs_eq(&a.params, &b.params);
    names_eq && from_eq && params_eq
}

/// Decides value equality of two snapshots, the test that lets the
/// reconciler skip a change event that changes nothing.
pub fn snapshot_eq(a: &Snapshot, b: &Snapshot) -> (r: bool)
    ensures
        r == snapshot_eqv(*a, *b),
{
    if !a.secret_store.eq(&b.secret_store) {
        return false;
    }
    if a.datasets.len() != b.datasets.len() {
        return false;
    }
    if a.models.len() != b.models.len() {
        return false;
    }
    let nd = a.datasets.len();
    let mut i: usize = 0;
    while i < nd
        invariant
            nd == a.datasets@.len(),
            0 <= i <= nd,
            forall|j: int| 0 <= j < i ==> dataset_eqv(a.datasets@[j], b.datasets@[j]),
            a.secret_store@ == b.secret_store@,
            a.datasets@.len() == b.datasets@.len(),
            a.models@.len() == b.models@.len(),
        decreases nd - i,
    {
        if !dataset_eq(&a.datasets[i], &b.datasets[i]) {
            return false;
        }
        i += 1;
    }
    let nm = a.models.len();
    let mut i: usize = 0;
    while i < nm
        invariant
            nm == a.models@.len(),
            0 <= i <= nm,
            forall|j: int| 0 <= j < i ==> model_eqv(a.models@[j], b.models@[j]),
            a.secret_store@ == b.secret_store@,
            a.datasets@.len() == b.datasets@.len(),
            a.models@.len() == b.models@.len(),
            forall|j: int| 0 <= j < a.datasets@.len()
                ==> dataset_eqv(a.datasets@[j], b.datasets@[j]),
        decreases nm - i,
    {
        if !model_eq(&a.models[i], &b.models[i]) {
            return false;
        }
        i += 1;
    }
    true
}

} // verus!
