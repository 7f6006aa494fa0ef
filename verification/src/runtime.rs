//! The runtime root: owns the accepted specification snapshot, the
//! two status registries, the model registry and the secrets
//! provider, and applies the reconciler's decisions to them.  The
//! returned actions tell the embedding driver what to run: spawn a
//! dataset load pipeline, materialize a model, tear an entity down.

use vstd::prelude::*;
use crate::component::{Snapshot, snapshot_eq, snapshot_eqv, snapshot_wf, Dataset, ModelSpec};
use crate::reconcile::{
    ReconcileAction, action_initial_status, action_name, is_dataset_action, reconcile,
    spec_action_name, spec_action_status, spec_is_dataset_action, spec_reconcile,
};
use crate::registry::NameMap;
use crate::secrets::SecretsProvider;
use crate::status::{ComponentStatus, StatusRegistry};

verus! {

/// The status maps after dispatching the first `i` of `acts`: each
/// action stamps its entity with its initial status (`Initializing`,
/// `Refreshing` or `Disabled`).
pub open spec fn spec_apply_statuses(
    dsm: Map<Seq<char>, ComponentStatus>,
    mm: Map<Seq<char>, ComponentStatus>,
    acts: Seq<ReconcileAction>,
    i: int,
) -> (Map<Seq<char>, ComponentStatus>, Map<Seq<char>, ComponentStatus>)
    decreases i,
{
    if i <= 0 {
        (dsm, mm)
    } else {
        let prev = spec_apply_statuses(dsm, mm, acts, i - 1);
        let a = acts[i - 1];
        if spec_is_dataset_action(a) {
            (prev.0.insert(spec_action_name(a)@, spec_action_status(a)), prev.1)
        } else {
            (prev.0, prev.1.insert(spec_action_name(a)@, spec_action_status(a)))
        }
    }
}

/// The startup load actions for the first `i` datasets of a snapshot.
pub open spec fn spec_initial_dataset_loads(s: Seq<Dataset>, i: int) -> Seq<ReconcileAction>
    decreases i,
{
    if i <= 0 {
        Seq::empty()
    } else {
        spec_initial_dataset_loads(s, i - 1) + seq![
            ReconcileAction::LoadDataset { name: s[i - 1].name },
        ]
    }
}

/// The status map after marking the first `i` datasets Initializing.
pub open spec fn spec_initial_dataset_statuses(
    m: Map<Seq<char>, ComponentStatus>,
    s: Seq<Dataset>,
    i: int,
) -> Map<Seq<char>, ComponentStatus>
    decreases i,
{
    if i <= 0 {
        m
    } else {
        spec_initial_dataset_statuses(m, s, i - 1).insert(
            s[i - 1].name@,
            ComponentStatus::Initializing,
        )
    }
}

/// The startup load actions for the first `i` models of a snapshot.
pub open spec fn spec_initial_model_loads(s: Seq<ModelSpec>, i: int) -> Seq<ReconcileAction>
    decreases i,
{
    if i <= 0 {
        Seq::empty()
    } else {
        spec_initial_model_loads(s, i - 1) + seq![
            ReconcileAction::LoadModel { name: s[i - 1].name },
        ]
    }
}

/// The status map after marking the first `i` models Initializing.
pub open spec fn spec_initial_model_statuses(
    m: Map<Seq<char>, ComponentStatus>,
    s: Seq<ModelSpec>,
    i: int,
) -> Map<Seq<char>, ComponentStatus>
    decreases i,
{
    if i <= 0 {
        m
    } else {
        spec_initial_model_statuses(m, s, i - 1).insert(
            s[i - 1].name@,
            ComponentStatus::Initializing,
        )
    }
}

pub struct Runtime {
    /// The last accepted specification snapshot.
    pub current: Option<Snapshot>,
    /// Lifecycle status per dataset name.
    pub dataset_status: StatusRegistry,
    /// Lifecycle status per model name.
    pub model_status: StatusRegistry,
    /// The model registry: name to the handle of the materialized
    /// model; exclusively owned, entries swapped whole, never mutated
    /// in place.
    pub models: NameMap<u64>,
    /// The secrets provider's lifecycle state.
    pub secrets: SecretsProvider,
}

impl Runtime {
    pub open spec fn wf(&self) -> bool {
        &&& self.dataset_status.wf()
        &&& self.model_status.wf()
        &&& self.models.wf()
        &&& self.secrets.wf()
        &&& match self.current {
            Some(s) => snapshot_wf(s),
            None => true,
        }
    }

    /// A fresh runtime: no snapshot accepted yet, nothing loaded.
    pub fn new(initial: Option<Snapshot>) -> (r: Runtime)
        requires
            match initial {
                Some(s) => snapshot_wf(s),
                None => true,
            },
        ensures
            r.wf(),
            r.current == initial,
            r.dataset_status@ == Map::<Seq<char>, ComponentStatus>::empty(),
            r.model_status@ == Map::<Seq<char>, ComponentStatus>::empty(),
            r.models@ == Map::<Seq<char>, u64>::empty(),
            r.secrets.store is None,
            r.secrets.secrets@ == Map::<Seq<char>, u64>::empty(),
    {
        Runtime {
            current: initial,
            dataset_status: NameMap::new(),
            model_status: NameMap::new(),
            models: NameMap::new(),
            secrets: SecretsProvider::new(),
        }
    }

    /// Reconfigures the secrets provider from the active
    /// specification.  The caller reads the snapshot's secret-store
    /// declaration and reports the backend kind it recognized;
    /// `None` — no snapshot or an unrecognized declaration — leaves
    /// the provider as it was.  Loading the bundles themselves is the
    /// backend's work and its failure is logged, never fatal.
    pub fn load_secrets(&mut self, recognized: Option<String>)
        requires
            old(self).wf(),
        ensures
            final(self).wf(),
            final(self).current == old(self).current,
            final(self).dataset_status == old(self).dataset_status,
            final(self).model_status == old(self).model_status,
            final(self).models == old(self).models,
            match recognized {
                Some(kind) => final(self).secrets.store == Some(kind)
                    && final(self).secrets.secrets@ == Map::<Seq<char>, u64>::empty(),
                None => final(self).secrets == old(self).secrets,
            },
    {
        match recognized {
            Some(kind) => self.secrets.configure(kind),
            None => (),
        }
    }

    /// Writes a dataset's lifecycle status, as the load pipelines and
    /// the reconciler convention require.
    pub fn set_dataset_status(&mut self, name: String, status: ComponentStatus)
        requires
            old(self).wf(),
        ensures
            final(self).wf(),
            final(self).current == old(self).current,
            final(self).model_status == old(self).model_status,
            final(self).models == old(self).models,
            final(self).secrets == old(self).secrets,
            final(self).dataset_status@ == old(self).dataset_status@.insert(name@, status),
    {
        self.dataset_status.insert(name, status);
    }

    /// Writes a model's lifecycle status.
    pub fn set_model_status(&mut self, name: String, status: ComponentStatus)
        requires
            old(self).wf(),
        ensures
            final(self).wf(),
            final(self).current == old(self).current,
            final(self).dataset_status == old(self).dataset_status,
            final(self).models == old(self).models,
            final(self).secrets == old(self).secrets,
            final(self).model_status@ == old(self).model_status@.insert(name@, status),
    {
        self.model_status.insert(name, status);
    }

    /// Dispatches the startup load of every dataset the accepted
    /// snapshot declares: each is marked `Initializing` and gets a
    /// load action, in declaration order.
    pub fn load_datasets(&mut self) -> (r: Vec<ReconcileAction>)
        requires
            old(self).wf(),
        ensures
            final(self).wf(),
            final(self).current == old(self).current,
            final(self).model_status == old(self).model_status,
            final(self).models == old(self).models,
            final(self).secrets == old(self).secrets,
            match old(self).current {
                None => r@ == Seq::<ReconcileAction>::empty() && final(self).dataset_status
                    == old(self).dataset_status,
                Some(cur) => r@ == spec_initial_dataset_loads(
                    cur.datasets@,
                    cur.datasets@.len() as int,
                ) && final(self).dataset_status@ == spec_initial_dataset_statuses(
                    old(self).dataset_status@,
                    cur.datasets@,
                    cur.datasets@.len() as int,
                ),
            },
    {
        let ghost init = *self;
        let mut names: Vec<String> = Vec::new();
        let n = match &self.current {
            Some(s) => s.datasets.len(),
            None => 0,
        };
        let mut i: usize = 0;
        while i < n
            invariant
                *self == init,
                0 <= i <= n,
                names@.len() == i,
                match init.current {
                    Some(cur) => n == cur.datasets@.len() && forall|t: int|
                        0 <= t < i ==> names@[t] == cur.datasets@[t].name,
                    None => n == 0,
                },
            decreases n - i,
        {
            let nm = match &self.current {
                Some(s) => s.datasets[i].name.clone(),
                None => {
                    proof {
                        assert(false);
                    }
                    String::new()
                },
            };
            names.push(nm);
            i += 1;
        }
        let mut acts: Vec<ReconcileAction> = Vec::new();
        let mut j: usize = 0;
        while j < n
            invariant
                self.current == init.current,
                self.model_status == init.model_status,
                self.models == init.models,
                self.secrets == init.secrets,
                self.dataset_status.wf(),
                init.wf(),
                0 <= j <= n,
                names@.len() == n,
                match init.current {
                    Some(cur) => {
                        &&& n == cur.datasets@.len()
                        &&& (forall|t: int| 0 <= t < n ==> names@[t] == cur.datasets@[t].name)
                        &&& self.dataset_status@ == spec_initial_dataset_statuses(
                            init.dataset_status@,
                            cur.datasets@,
                            j as int,
                        )
                        &&& acts@ == spec_initial_dataset_loads(cur.datasets@, j as int)
                    },
                    None => n == 0 && self.dataset_status == init.dataset_status && acts@
                        == Seq::<ReconcileAction>::empty(),
                },
            decreases n - j,
        {
            let name = names[j].clone();
            self.dataset_status.insert(name.clone(), ComponentStatus::Initializing);
            acts.push(ReconcileAction::LoadDataset { name });
            proof {
                let cur = init.current->Some_0;
                assert(acts@ =~= spec_initial_dataset_loads(cur.datasets@, j as int + 1));
            }
            j += 1;
        }
        acts
    }

    /// Dispatches the startup load of every model the accepted
    /// snapshot declares, mirroring `load_datasets`.
    pub fn load_models(&mut self) -> (r: Vec<ReconcileAction>)
        requires
            old(self).wf(),
        ensures
            final(self).wf(),
            final(self).current == old(self).current,
            final(self).dataset_status == old(self).dataset_status,
            final(self).models == old(self).models,
            final(self).secrets == old(self).secrets,
            match old(self).current {
                None => r@ == Seq::<ReconcileAction>::empty() && final(self).model_status
                    == old(self).model_status,
                Some(cur) => r@ == spec_initial_model_loads(
                    cur.models@,
                    cur.models@.len() as int,
                ) && final(self).model_status@ == spec_initial_model_statuses(
                    old(self).model_status@,
                    cur.models@,
                    cur.models@.len() as int,
                ),
            },
    {
        let ghost init = *self;
        let mut names: Vec<String> = Vec::new();
        let n = match &self.current {
            Some(s) => s.models.len(),
            None => 0,
        };
        let mut i: usize = 0;
        while i < n
            invariant
                *self == init,
                0 <= i <= n,
                names@.len() == i,
                match init.current {
                    Some(cur) => n == cur.models@.len() && forall|t: int|
                        0 <= t < i ==> names@[t] == cur.models@[t].name,
                    None => n == 0,
                },
            decreases n - i,
        {
            let nm = match &self.current {
                Some(s) => s.models[i].name.clone(),
                None => {
                    proof {
                        assert(false);
                    }
                    String::new()
                },
            };
            names.push(nm);
            i += 1;
        }
        let mut acts: Vec<ReconcileAction> = Vec::new();
        let mut j: usize = 0;
        while j < n
            invariant
                self.current == init.current,
                self.dataset_status == init.dataset_status,
                self.models == init.models,
                self.secrets == init.secrets,
                self.model_status.wf(),
                init.wf(),
                0 <= j <= n,
                names@.len() == n,
                match init.current {
                    Some(cur) => {
                        &&& n == cur.models@.len()
                        &&& (forall|t: int| 0 <= t < n ==> names@[t] == cur.models@[t].name)
                        &&& self.model_status@ == spec_initial_model_statuses(
                            init.model_status@,
                            cur.models@,
                            j as int,
                        )
                        &&& acts@ == spec_initial_model_loads(cur.models@, j as int)
                    },
                    None => n == 0 && self.model_status == init.model_status && acts@
                        == Seq::<ReconcileAction>::empty(),
                },
            decreases n - j,
        {
            let name = names[j].clone();
            self.model_status.insert(name.clone(), ComponentStatus::Initializing);
            acts.push(ReconcileAction::LoadModel { name });
            proof {
                let cur = init.current->Some_0;
                assert(acts@ =~= spec_initial_model_loads(cur.models@, j as int + 1));
            }
            j += 1;
        }
        acts
    }

    /// Consumes one snapshot from the watcher stream.  The first
    /// snapshot is accepted silently; one equal to the accepted one
    /// is ignored; otherwise the diff's actions are returned in
    /// dispatch order, each entity stamped with its initial status,
    /// and the snapshot is accepted.  The actions are dispatched, not
    /// awaited: dataset loads run as independent concurrent units.
    pub fn accept_snapshot(&mut self, new: Snapshot) -> (r: Vec<ReconcileAction>)
        requires
            old(self).wf(),
            snapshot_wf(new),
        ensures
            final(self).wf(),
            final(self).models == old(self).models,
            final(self).secrets == old(self).secrets,
            old(self).current is None ==> final(self).current == Some(new) && r@
                == Seq::<ReconcileAction>::empty() && final(self).dataset_status == old(
                self,
            ).dataset_status && final(self).model_status == old(self).model_status,
            old(self).current is Some && snapshot_eqv(old(self).current->Some_0, new)
                ==> *final(self) == *old(self) && r@ == Seq::<ReconcileAction>::empty(),
            old(self).current is Some && !snapshot_eqv(old(self).current->Some_0, new) ==> ({
                let cur = old(self).current->Some_0;
                &&& r@ == spec_reconcile(cur, new)
                &&& final(self).current == Some(new)
                &&& final(self).dataset_status@ == spec_apply_statuses(
                    old(self).dataset_status@,
                    old(self).model_status@,
                    spec_reconcile(cur, new),
                    spec_reconcile(cur, new).len() as int,
                ).0
                &&& final(self).model_status@ == spec_apply_statuses(
                    old(self).dataset_status@,
                    old(self).model_status@,
                    spec_reconcile(cur, new),
                    spec_reconcile(cur, new).len() as int,
                ).1
            }),
    {
        let ghost init = *self;
        if self.current.is_none() {
            self.current = Some(new);
            return Vec::new();
        }
        let acts: Vec<ReconcileAction> = match &self.current {
            Some(cur) => {
                if snapshot_eq(cur, &new) {
                    return Vec::new();
                }
                reconcile(cur, &new)
            },
            None => {
                proof {
                    assert(false);
                }
                Vec::new()
            },
        };
        let n = acts.len();
        let mut i: usize = 0;
        while i < n
            invariant
                self.current == init.current,
                self.models == init.models,
                self.secrets == init.secrets,
                self.dataset_status.wf(),
                self.model_status.wf(),
                init.wf(),
                0 <= i <= n,
                n == acts@.len(),
                self.dataset_status@ == spec_apply_statuses(
                    init.dataset_status@,
                    init.model_status@,
                    acts@,
                    i as int,
                ).0,
                self.model_status@ == spec_apply_statuses(
                    init.dataset_status@,
                    init.model_status@,
                    acts@,
                    i as int,
                ).1,
            decreases n - i,
        {
            let a = &acts[i];
            let st = action_initial_status(a);
            let nm = action_name(a).clone();
            if is_dataset_action(a) {
                self.dataset_status.insert(nm, st);
            } else {
                self.model_status.insert(nm, st);
            }
            i += 1;
        }
        self.current = Some(new);
        acts
    }

    /// Records the outcome of a model materialization, which the
    /// caller awaited: on success the handle enters the registry and
    /// the model turns `Ready`; on failure any prior entry is left
    /// untouched and the model turns `Error`.  The caller wrote
    /// `Initializing` (or `Refreshing` then `Initializing` for an
    /// update) before materializing, and bumps the load-error counter
    /// on failure.
    pub fn load_model(&mut self, name: &String, materialized: Option<u64>)
        requires
            old(self).wf(),
        ensures
            final(self).wf(),
            final(self).current == old(self).current,
            final(self).dataset_status == old(self).dataset_status,
            final(self).secrets == old(self).secrets,
            match materialized {
                Some(h) => final(self).models@ == old(self).models@.insert(name@, h)
                    && final(self).model_status@ == old(self).model_status@.insert(
                    name@,
                    ComponentStatus::Ready,
                ),
                None => final(self).models == old(self).models && final(self).model_status@
                    == old(self).model_status@.insert(name@, ComponentStatus::Error),
            },
    {
        match materialized {
            Some(h) => {
                self.models.insert(name.clone(), h);
                self.model_status.insert(name.clone(), ComponentStatus::Ready);
            },
            None => {
                self.model_status.insert(name.clone(), ComponentStatus::Error);
            },
        }
    }

    /// Unloads a model.  Removing a name with no registry entry is a
    /// no-op that reports `false` — the caller logs a warning — and
    /// corrupts no other entry.  The caller wrote `Disabled` before
    /// calling and decrements the model count gauge when `true` comes
    /// back.
    pub fn remove_model(&mut self, name: &String) -> (r: bool)
        requires
            old(self).wf(),
        ensures
            final(self).wf(),
            final(self).current == old(self).current,
            final(self).dataset_status == old(self).dataset_status,
            final(self).model_status == old(self).model_status,
            final(self).secrets == old(self).secrets,
            r == old(self).models@.contains_key(name@),
            r ==> final(self).models@ == old(self).models@.remove(name@),
            !r ==> final(self).models@ == old(self).models@,
    {
        self.models.remove(name)
    }
}

} // verus!
