//! The reconciler: diffs the previously accepted specification
//! snapshot against a new one, entity by entity and by name, and
//! produces the load, update and remove actions that bring the live
//! state in line.  Within one snapshot, dataset adds and updates come
//! first, then model adds and updates, then model removals, then
//! dataset removals — a removed dataset must not be torn down while a
//! just-declared dependent view is still being verified against it.

use vstd::prelude::*;
use crate::component::{
    Dataset, ModelSpec, Snapshot, dataset_eq, dataset_eqv, dataset_named, has_dataset_named,
    has_model_named, model_eq, model_eqv, model_named, snapshot_wf, unique_dataset_names,
    unique_model_names,
};
use crate::status::ComponentStatus;

verus! {

/// One action the reconciler dispatches, carrying the entity's name.
#[derive(Clone, Debug)]
pub enum ReconcileAction {
    LoadDataset { name: String },
    UpdateDataset { name: String },
    RemoveDataset { name: String },
    LoadModel { name: String },
    UpdateModel { name: String },
    RemoveModel { name: String },
}

/// The status the reconciler writes for an entity at the moment it
/// dispatches the action: a fresh load starts `Initializing`, an
/// update starts `Refreshing`, a removal marks the entity `Disabled`
/// just before its teardown.
pub open spec fn spec_action_status(a: ReconcileAction) -> ComponentStatus {
    match a {
        ReconcileAction::LoadDataset { .. } => ComponentStatus::Initializing,
        ReconcileAction::LoadModel { .. } => ComponentStatus::Initializing,
        ReconcileAction::UpdateDataset { .. } => ComponentStatus::Refreshing,
        ReconcileAction::UpdateModel { .. } => ComponentStatus::Refreshing,
        ReconcileAction::RemoveDataset { .. } => ComponentStatus::Disabled,
        ReconcileAction::RemoveModel { .. } => ComponentStatus::Disabled,
    }
}

pub fn action_initial_status(a: &ReconcileAction) -> (r: ComponentStatus)
    ensures
        r == spec_action_status(*a),
{
    match a {
        ReconcileAction::LoadDataset { .. } => ComponentStatus::Initializing,
        ReconcileAction::LoadModel { .. } => ComponentStatus::Initializing,
        ReconcileAction::UpdateDataset { .. } => ComponentStatus::Refreshing,
        ReconcileAction::UpdateModel { .. } => ComponentStatus::Refreshing,
        ReconcileAction::RemoveDataset { .. } => ComponentStatus::Disabled,
        ReconcileAction::RemoveModel { .. } => ComponentStatus::Disabled,
    }
}

pub open spec fn spec_is_dataset_action(a: ReconcileAction) -> bool {
    a is LoadDataset || a is UpdateDataset || a is RemoveDataset
}

/// Whether the action concerns a dataset (else a model).
pub fn is_dataset_action(a: &ReconcileAction) -> (r: bool)
    ensures
        r == spec_is_dataset_action(*a),
{
    match a {
        ReconcileAction::LoadDataset { .. } => true,
        ReconcileAction::UpdateDataset { .. } => true,
        ReconcileAction::RemoveDataset { .. } => true,
        _ => false,
    }
}

pub open spec fn spec_action_name(a: ReconcileAction) -> String {
    match a {
        ReconcileAction::LoadDataset { name } => name,
        ReconcileAction::UpdateDataset { name } => name,
        ReconcileAction::RemoveDataset { name } => name,
        ReconcileAction::LoadModel { name } => name,
        ReconcileAction::UpdateModel { name } => name,
        ReconcileAction::RemoveModel { name } => name,
    }
}

pub fn action_name(a: &ReconcileAction) -> (r: &String)
    ensures
        *r == spec_action_name(*a),
{
    match a {
        ReconcileAction::LoadDataset { name } => name,
        ReconcileAction::UpdateDataset { name } => name,
        ReconcileAction::RemoveDataset { name } => name,
        ReconcileAction::LoadModel { name } => name,
        ReconcileAction::UpdateModel { name } => name,
        ReconcileAction::RemoveModel { name } => name,
    }
}

/// Dataset adds and updates among the first `i` entries of `new`, in
/// the snapshot's order.
pub open spec fn spec_dataset_changes(old: Seq<Dataset>, new: Seq<Dataset>, i: int) -> Seq<
    ReconcileAction,
>
    decreases i,
{
    if i <= 0 {
        Seq::empty()
    } else {
        spec_dataset_changes(old, new, i - 1) + {
            let ds = new[i - 1];
            if !has_dataset_named(old, ds.name@) {
                seq![ReconcileAction::LoadDataset { name: ds.name }]
            } else if !dataset_eqv(dataset_named(old, ds.name@), ds) {
                seq![ReconcileAction::UpdateDataset { name: ds.name }]
            } else {
                Seq::empty()
            }
        }
    }
}

/// Dataset removals among the first `i` entries of `old`.
pub open spec fn spec_dataset_removals(old: Seq<Dataset>, new: Seq<Dataset>, i: int) -> Seq<
    ReconcileAction,
>
    decreases i,
{
    if i <= 0 {
        Seq::empty()
    } else {
        spec_dataset_removals(old, new, i - 1) + {
            if !has_dataset_named(new, old[i - 1].name@) {
                seq![ReconcileAction::RemoveDataset { name: old[i - 1].name }]
            } else {
                Seq::empty()
            }
        }
    }
}

/// Model adds and updates among the first `i` entries of `new`.
pub open spec fn spec_model_changes(old: Seq<ModelSpec>, new: Seq<ModelSpec>, i: int) -> Seq<
    ReconcileAction,
>
    decreases i,
{
    if i <= 0 {
        Seq::empty()
    } else {
        spec_model_changes(old, new, i - 1) + {
            let m = new[i - 1];
            if !has_model_named(old, m.name@) {
                seq![ReconcileAction::LoadModel { name: m.name }]
            } else if !model_eqv(model_named(old, m.name@), m) {
                seq![ReconcileAction::UpdateModel { name: m.name }]
            } else {
                Seq::empty()
            }
        }
    }
}

/// Model removals among the first `i` entries of `old`.
pub open spec fn spec_model_removals(old: Seq<ModelSpec>, new: Seq<ModelSpec>, i: int) -> Seq<
    ReconcileAction,
>
    decreases i,
{
    if i <= 0 {
        Seq::empty()
    } else {
        spec_model_removals(old, new, i - 1) + {
            if !has_model_named(new, old[i - 1].name@) {
                seq![ReconcileAction::RemoveModel { name: old[i - 1].name }]
            } else {
                Seq::empty()
            }
        }
    }
}

/// Everything one snapshot change dispatches, in dispatch order.
pub open spec fn spec_reconcile(old: Snapshot, new: Snapshot) -> Seq<ReconcileAction> {
    spec_dataset_changes(old.datasets@, new.datasets@, new.datasets@.len() as int)
        + spec_model_changes(old.models@, new.models@, new.models@.len() as int)
        + spec_model_removals(old.models@, new.models@, old.models@.len() as int)
        + spec_dataset_removals(old.datasets@, new.datasets@, old.datasets@.len() as int)
}

/// With unique names, the dataset looked up by an entry's name is
/// that entry itself.
pub proof fn lemma_dataset_named_unique(s: Seq<Dataset>, i: int)
    requires
        unique_dataset_names(s),
        0 <= i < s.len(),
    ensures
        has_dataset_named(s, s[i].name@),
        dataset_named(s, s[i].name@) == s[i],
{
    assert(has_dataset_named(s, s[i].name@));
    let j = choose|j: int| 0 <= j < s.len() && s[j].name@ == s[i].name@;
    assert(j == i);
}

/// With unique names, the model looked up by an entry's name is that
/// entry itself.
pub proof fn lemma_model_named_unique(s: Seq<ModelSpec>, i: int)
    requires
        unique_model_names(s),
        0 <= i < s.len(),
    ensures
        has_model_named(s, s[i].name@),
        model_named(s, s[i].name@) == s[i],
{
    assert(has_model_named(s, s[i].name@));
    let j = choose|j: int| 0 <= j < s.len() && s[j].name@ == s[i].name@;
    assert(j == i);
}

proof fn lemma_dataset_changes_isolated(old: Seq<Dataset>, new: Seq<Dataset>, k: int, i: int)
    requires
        unique_dataset_names(old),
        old.len() == new.len(),
        forall|j: int| 0 <= j < new.len() ==> new[j].name@ == old[j].name@,
        forall|j: int| 0 <= j < new.len() && j != k ==> dataset_eqv(old[j], new[j]),
        0 <= k < new.len(),
        !dataset_eqv(old[k], new[k]),
        0 <= i <= new.len(),
    ensures
        spec_dataset_changes(old, new, i) =~= if i <= k {
            Seq::<ReconcileAction>::empty()
        } else {
            seq![ReconcileAction::UpdateDataset { name: new[k].name }]
        },
    decreases i,
{
    if i > 0 {
        lemma_dataset_changes_isolated(old, new, k, i - 1);
        lemma_dataset_named_unique(old, i - 1);
        assert(dataset_named(old, new[i - 1].name@) == old[i - 1]);
    }
}

proof fn lemma_dataset_removals_empty(old: Seq<Dataset>, new: Seq<Dataset>, i: int)
    requires
        forall|j: int| 0 <= j < old.len() ==> has_dataset_named(new, old[j].name@),
        0 <= i <= old.len(),
    ensures
        spec_dataset_removals(old, new, i) =~= Seq::<ReconcileAction>::empty(),
    decreases i,
{
    if i > 0 {
        lemma_dataset_removals_empty(old, new, i - 1);
    }
}

proof fn lemma_model_changes_empty(old: Seq<ModelSpec>, new: Seq<ModelSpec>, i: int)
    requires
        unique_model_names(old),
        old.len() == new.len(),
        forall|j: int| 0 <= j < new.len() ==> new[j].name@ == old[j].name@,
        forall|j: int| 0 <= j < new.len() ==> model_eqv(old[j], new[j]),
        0 <= i <= new.len(),
    ensures
        spec_model_changes(old, new, i) =~= Seq::<ReconcileAction>::empty(),
    decreases i,
{
    if i > 0 {
        lemma_model_changes_empty(old, new, i - 1);
        lemma_model_named_unique(old, i - 1);
        assert(model_named(old, new[i - 1].name@) == old[i - 1]);
    }
}

proof fn lemma_model_removals_empty(old: Seq<ModelSpec>, new: Seq<ModelSpec>, i: int)
    requires
        forall|j: int| 0 <= j < old.len() ==> has_model_named(new, old[j].name@),
        0 <= i <= old.len(),
    ensures
        spec_model_removals(old, new, i) =~= Seq::<ReconcileAction>::empty(),
    decreases i,
{
    if i > 0 {
        lemma_model_removals_empty(old, new, i - 1);
    }
}

/// Reconciliation is order-independent across unrelated entities:
/// when two snapshots agree on every entity except that one dataset
/// changed its value, the diff is exactly one update action for that
/// dataset — no other entity sees any action.
pub proof fn lemma_reconcile_isolated_change(old: Snapshot, new: Snapshot, k: int)
    requires
        snapshot_wf(old),
        snapshot_wf(new),
        old.datasets@.len() == new.datasets@.len(),
        forall|j: int|
            0 <= j < new.datasets@.len() ==> new.datasets@[j].name@ == old.datasets@[j].name@,
        forall|j: int|
            0 <= j < new.datasets@.len() && j != k ==> dataset_eqv(
                old.datasets@[j],
                new.datasets@[j],
            ),
        0 <= k < new.datasets@.len(),
        !dataset_eqv(old.datasets@[k], new.datasets@[k]),
        old.models@.len() == new.models@.len(),
        forall|j: int|
            0 <= j < new.models@.len() ==> new.models@[j].name@ == old.models@[j].name@
                && model_eqv(old.models@[j], new.models@[j]),
    ensures
        spec_reconcile(old, new) =~= seq![
            ReconcileAction::UpdateDataset { name: new.datasets@[k].name },
        ],
{
    lemma_dataset_changes_isolated(
        old.datasets@,
        new.datasets@,
        k,
        new.datasets@.len() as int,
    );
    lemma_model_changes_empty(old.models@, new.models@, new.models@.len() as int);
    assert forall|j: int| 0 <= j < old.models@.len() implies has_model_named(
        new.models@,
        old.models@[j].name@,
    ) by {
        assert(new.models@[j].name@ == old.models@[j].name@);
    }
    lemma_model_removals_empty(old.models@, new.models@, old.models@.len() as int);
    assert forall|j: int| 0 <= j < old.datasets@.len() implies has_dataset_named(
        new.datasets@,
        old.datasets@[j].name@,
    ) by {
        assert(new.datasets@[j].name@ == old.datasets@[j].name@);
    }
    lemma_dataset_removals_empty(old.datasets@, new.datasets@, old.datasets@.len() as int);
}

fn find_dataset(list: &Vec<Dataset>, name: &String) -> (r: Option<usize>)
    ensures
        match r {
            Some(i) => i < list@.len() && list@[i as int].name@ == name@,
            None => !has_dataset_named(list@, name@),
        },
{
    let n = list.len();
    let mut i: usize = 0;
    while i < n
        invariant
            n == list@.len(),
            0 <= i <= n,
            forall|j: int| 0 <= j < i ==> list@[j].name@ != name@,
        decreases n - i,
    {
        if list[i].name.eq(name) {
            return Some(i);
        }
        i += 1;
    }
    None
}

fn find_model(list: &Vec<ModelSpec>, name: &String) -> (r: Option<usize>)
    ensures
        match r {
            Some(i) => i < list@.len() && list@[i as int].name@ == name@,
            None => !has_model_named(list@, name@),
        },
{
    let n = list.len();
    let mut i: usize = 0;
    while i < n
        invariant
            n == list@.len(),
            0 <= i <= n,
            forall|j: int| 0 <= j < i ==> list@[j].name@ != name@,
        decreases n - i,
    {
        if list[i].name.eq(name) {
            return Some(i);
        }
        i += 1;
    }
    None
}

/// Diffs `old` against `new` and lays out the actions in dispatch
/// order: dataset adds/updates, model adds/updates, model removals,
/// dataset removals.
pub fn reconcile(old: &Snapshot, new: &Snapshot) -> (r: Vec<ReconcileAction>)
    requires
        snapshot_wf(*old),
        snapshot_wf(*new),
    ensures
        r@ == spec_reconcile(*old, *new),
{
    let mut acts: Vec<ReconcileAction> = Vec::new();
    let nd = new.datasets.len();
    let mut i: usize = 0;
    while i < nd
        invariant
            nd == new.datasets@.len(),
            0 <= i <= nd,
            snapshot_wf(*old),
            snapshot_wf(*new),
            acts@ =~= spec_dataset_changes(old.datasets@, new.datasets@, i as int),
        decreases nd - i,
    {
        let ds = &new.datasets[i];
        match find_dataset(&old.datasets, &ds.name) {
            None => {
                acts.push(ReconcileAction::LoadDataset { name: ds.name.clone() });
            },
            Some(j) => {
                proof {
                    lemma_dataset_named_unique(old.datasets@, j as int);
                }
                if !dataset_eq(&old.datasets[j], ds) {
                    acts.push(ReconcileAction::UpdateDataset { name: ds.name.clone() });
                }
            },
        }
        assert(acts@ =~= spec_dataset_changes(old.datasets@, new.datasets@, i as int + 1));
        i += 1;
    }
    let ghost part1 = spec_dataset_changes(old.datasets@, new.datasets@, nd as int);
    let nm = new.models.len();
    let mut i: usize = 0;
    while i < nm
        invariant
            nm == new.models@.len(),
            0 <= i <= nm,
            snapshot_wf(*old),
            snapshot_wf(*new),
            acts@ =~= part1 + spec_model_changes(old.models@, new.models@, i as int),
        decreases nm - i,
    {
        let m = &new.models[i];
        match find_model(&old.models, &m.name) {
            None => {
                acts.push(ReconcileAction::LoadModel { name: m.name.clone() });
            },
            Some(j) => {
                proof {
                    lemma_model_named_unique(old.models@, j as int);
                }
                if !model_eq(&old.models[j], m) {
                    acts.push(ReconcileAction::UpdateModel { name: m.name.clone() });
                }
            },
        }
        assert(acts@ =~= part1 + spec_model_changes(old.models@, new.models@, i as int + 1));
        i += 1;
    }
    let ghost part2 = part1 + spec_model_changes(old.models@, new.models@, nm as int);
    let om = old.models.len();
    let mut i: usize = 0;
    while i < om
        invariant
            om == old.models@.len(),
            0 <= i <= om,
            snapshot_wf(*old),
            snapshot_wf(*new),
            acts@ =~= part2 + spec_model_removals(old.models@, new.models@, i as int),
        decreases om - i,
    {
        let m = &old.models[i];
        match find_model(&new.models, &m.name) {
            None => {
                acts.push(ReconcileAction::RemoveModel { name: m.name.clone() });
            },
            Some(_) => {
                assert(has_model_named(new.models@, m.name@));
            },
        }
        assert(acts@ =~= part2 + spec_model_removals(old.models@, new.models@, i as int + 1));
        i += 1;
    }
    let ghost part3 = part2 + spec_model_removals(old.models@, new.models@, om as int);
    let od = old.datasets.len();
    let mut i: usize = 0;
    while i < od
        invariant
            od == old.datasets@.len(),
            0 <= i <= od,
            snapshot_wf(*old),
            snapshot_wf(*new),
            acts@ =~= part3 + spec_dataset_removals(old.datasets@, new.datasets@, i as int),
        decreases od - i,
    {
        let ds = &old.datasets[i];
        match find_dataset(&new.datasets, &ds.name) {
            None => {
                acts.push(ReconcileAction::RemoveDataset { name: ds.name.clone() });
            },
            Some(_) => {
                assert(has_dataset_named(new.datasets@, ds.name@));
            },
        }
        assert(acts@ =~= part3 + spec_dataset_removals(old.datasets@, new.datasets@, i as int + 1));
        i += 1;
    }
    proof {
        assert(acts@ =~= spec_reconcile(*old, *new));
    }
    acts
}

} // verus!
