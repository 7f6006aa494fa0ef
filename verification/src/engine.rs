//! The control plane's model of the query engine's registered-table
//! set, and the acceleration-engine label attached to the dataset
//! count gauge.

use vstd::prelude::*;
use crate::component::Dataset;
use crate::registry::NameMap;

verus! {

/// The set of table and view names currently registered with the
/// query engine.  The dependency verifier and the remove and update
/// paths consult and mutate it.
pub struct TableRegistry {
    tables: NameMap<()>,
}

impl View for TableRegistry {
    type V = Set<Seq<char>>;

    closed spec fn view(&self) -> Set<Seq<char>> {
        self.tables@.dom()
    }
}

impl TableRegistry {
    pub closed spec fn wf(&self) -> bool {
        self.tables.wf()
    }

    pub fn new() -> (r: TableRegistry)
        ensures
            r.wf(),
            r@ == Set::<Seq<char>>::empty(),
    {
        let r = TableRegistry { tables: NameMap::new() };
        proof {
            assert(r@ =~= Set::<Seq<char>>::empty());
        }
        r
    }

    pub fn table_exists(&self, name: &String) -> (r: bool)
        requires
            self.wf(),
        ensures
            r == self@.contains(name@),
    {
        self.tables.contains(name)
    }

    /// How many names are registered.
    pub fn table_count(&self) -> (r: usize)
        requires
            self.wf(),
        ensures
            self@.finite(),
            r == self@.len(),
    {
        self.tables.len()
    }

    /// Registers `name`; registering it again keeps a single entry.
    pub fn register_table(&mut self, name: String)
        requires
            old(self).wf(),
        ensures
            final(self).wf(),
            final(self)@ == old(self)@.insert(name@),
    {
        let ghost before = self@;
        self.tables.insert(name, ());
        proof {
            assert(self@ =~= before.insert(name@));
        }
    }

    /// Unregisters `name`.  Removing a name that is not registered is
    /// a no-op that reports `false` and leaves every other name
    /// untouched.
    pub fn remove_table(&mut self, name: &String) -> (r: bool)
        requires
            old(self).wf(),
        ensures
            final(self).wf(),
            r == old(self)@.contains(name@),
            r ==> final(self)@ == old(self)@.remove(name@),
            !r ==> final(self)@ == old(self)@,
    {
        let ghost before = self@;
        let r = self.tables.remove(name);
        proof {
            if r {
                assert(self@ =~= before.remove(name@));
            } else {
                assert(self@ =~= before);
            }
        }
        r
    }
}

/// The label the dataset count gauge carries: the acceleration
/// engine's name when acceleration is enabled, `"None"` otherwise.
pub open spec fn spec_engine_label(ds: Dataset) -> Seq<char> {
    match ds.acceleration {
        Some(acc) => if acc.enabled {
            acc.engine@
        } else {
            "None"@
        },
        None => "None"@,
    }
}

pub fn acceleration_engine_label(ds: &Dataset) -> (r: String)
    ensures
        r@ == spec_engine_label(*ds),
{
    match &ds.acceleration {
        Some(acc) => {
            if acc.enabled {
                acc.engine.clone()
            } else {
                "None".to_owned()
            }
        },
        None => "None".to_owned(),
    }
}

} // verus!
