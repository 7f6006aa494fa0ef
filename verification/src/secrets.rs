//! The secrets provider's lifecycle state: constructed empty,
//! reconfigured whenever the specification's secret-store declaration
//! is read, then queried per load.  The bundles themselves are opaque
//! to the control plane; it tracks which source has one, under a
//! handle the embedding binary assigns.

use vstd::prelude::*;
use crate::registry::NameMap;

verus! {

pub struct SecretsProvider {
    /// The configured store backend kind, once one was recognized.
    pub store: Option<String>,
    /// Which source has a loaded secret bundle, by bundle handle.
    pub secrets: NameMap<u64>,
}

impl SecretsProvider {
    pub open spec fn wf(&self) -> bool {
        self.secrets.wf()
    }

    /// A provider starts with no store and no bundles.
    pub fn new() -> (r: SecretsProvider)
        ensures
            r.wf(),
            r.store is None,
            r.secrets@ == Map::<Seq<char>, u64>::empty(),
    {
        SecretsProvider { store: None, secrets: NameMap::new() }
    }

    /// Switches the provider to `store` and drops the bundles loaded
    /// from the previous backend; reconfiguration never leaves stale
    /// entries behind.
    pub fn configure(&mut self, store: String)
        requires
            old(self).wf(),
        ensures
            final(self).wf(),
            final(self).store == Some(store),
            final(self).secrets@ == Map::<Seq<char>, u64>::empty(),
    {
        self.store = Some(store);
        self.secrets = NameMap::new();
    }

    /// Records that the backend yielded a bundle for `source`.
    pub fn put_secret(&mut self, source: String, handle: u64)
        requires
            old(self).wf(),
        ensures
            final(self).wf(),
            final(self).store == old(self).store,
            final(self).secrets@ == old(self).secrets@.insert(source@, handle),
    {
        self.secrets.insert(source, handle);
    }

    /// The bundle loaded for `source`, if the backend had one.
    pub fn get_secret(&self, source: &String) -> (r: Option<u64>)
        requires
            self.wf(),
        ensures
            match r {
                Some(h) => self.secrets@.contains_key(source@) && self.secrets@[source@] == h,
                None => !self.secrets@.contains_key(source@),
            },
    {
        self.secrets.get(source)
    }
}

} // verus!
