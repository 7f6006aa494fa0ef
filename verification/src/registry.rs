//! A map from entity names to values, backed by an association list
//! with unique keys.  It underlies the status registry, the model
//! registry and the model of the query engine's registered-table set.

use vstd::prelude::*;

verus! {

/// The map denoted by an association list; a later entry overrides an
/// earlier one with the same name.
spec fn entries_map<V>(s: Seq<(String, V)>) -> Map<Seq<char>, V>
    decreases s.len(),
{
    if s.len() == 0 {
        Map::empty()
    } else {
        entries_map(s.drop_last()).insert(s.last().0@, s.last().1)
    }
}

spec fn unique_entry_names<V>(s: Seq<(String, V)>) -> bool {
    forall|i: int, j: int| 0 <= i < j < s.len() ==> s[i].0@ != s[j].0@
}

proof fn lemma_entries_map_contains<V>(s: Seq<(String, V)>, k: Seq<char>)
    ensures
        entries_map(s).contains_key(k) <==> exists|i: int| 0 <= i < s.len() && s[i].0@ == k,
    decreases s.len(),
{
    if s.len() == 0 {
    } else {
        lemma_entries_map_contains(s.drop_last(), k);
        if s.last().0@ == k {
            assert(s[s.len() - 1].0@ == k);
        } else {
            if entries_map(s).contains_key(k) {
                let i = choose|i: int| 0 <= i < s.drop_last().len() && s.drop_last()[i].0@ == k;
                assert(s[i].0@ == k);
            }
            if exists|i: int| 0 <= i < s.len() && s[i].0@ == k {
                let i = choose|i: int| 0 <= i < s.len() && s[i].0@ == k;
                assert(s.drop_last()[i].0@ == k);
            }
        }
    }
}

proof fn lemma_entries_map_index<V>(s: Seq<(String, V)>, k: Seq<char>, i: int)
    requires
        0 <= i < s.len(),
        s[i].0@ == k,
        forall|j: int| i < j < s.len() ==> s[j].0@ != k,
    ensures
        entries_map(s).contains_key(k),
        entries_map(s)[k] == s[i].1,
    decreases s.len(),
{
    if i == s.len() - 1 {
    } else {
        assert(s.drop_last()[i] == s[i]);
        lemma_entries_map_index(s.drop_last(), k, i);
    }
}

proof fn lemma_entries_map_remove<V>(s: Seq<(String, V)>, i: int)
    requires
        unique_entry_names(s),
        0 <= i < s.len(),
    ensures
        entries_map(s.remove(i)) =~= entries_map(s).remove(s[i].0@),
    decreases s.len(),
{
    let k = s[i].0@;
    if i == s.len() - 1 {
        assert(s.remove(i) =~= s.drop_last());
        lemma_entries_map_contains(s.drop_last(), k);
        assert(forall|j: int| 0 <= j < s.drop_last().len() ==> s.drop_last()[j].0@ != k);
        assert(!entries_map(s.drop_last()).contains_key(k));
        assert(entries_map(s.drop_last()).insert(k, s.last().1).remove(k) =~= entries_map(
            s.drop_last(),
        ));
    } else {
        let s1 = s.remove(i);
        assert(s1.last() == s.last());
        assert(s1.drop_last() =~= s.drop_last().remove(i));
        assert(unique_entry_names::<V>(s.drop_last()));
        assert(s.drop_last()[i] == s[i]);
        lemma_entries_map_remove(s.drop_last(), i);
        assert(s.last().0@ != k);
        assert(entries_map(s.drop_last()).remove(k).insert(s.last().0@, s.last().1) =~= entries_map(
            s.drop_last(),
        ).insert(s.last().0@, s.last().1).remove(k));
    }
}

proof fn lemma_entries_map_size<V>(s: Seq<(String, V)>)
    requires
        unique_entry_names(s),
    ensures
        entries_map(s).dom().finite(),
        entries_map(s).dom().len() == s.len(),
    decreases s.len(),
{
    if s.len() == 0 {
    } else {
        assert(unique_entry_names::<V>(s.drop_last()));
        lemma_entries_map_size(s.drop_last());
        lemma_entries_map_contains(s.drop_last(), s.last().0@);
        assert(forall|j: int|
            0 <= j < s.drop_last().len() ==> s.drop_last()[j].0@ != s.last().0@);
        assert(!entries_map(s.drop_last()).contains_key(s.last().0@));
    }
}

/// A registry keyed by entity name.  Its view is the map from the
/// name's characters to the stored value.
pub struct NameMap<V> {
    entries: Vec<(String, V)>,
}

impl<V> View for NameMap<V> {
    type V = Map<Seq<char>, V>;

    closed spec fn view(&self) -> Map<Seq<char>, V> {
        entries_map(self.entries@)
    }
}

impl<V: Copy> NameMap<V> {
    /// No two entries share a name.
    pub closed spec fn wf(&self) -> bool {
        unique_entry_names(self.entries@)
    }

    /// The registry starts out empty.
    pub fn new() -> (r: NameMap<V>)
        ensures
            r.wf(),
            r@ == Map::<Seq<char>, V>::empty(),
    {
        NameMap { entries: Vec::new() }
    }

    /// How many names are registered.
    pub fn len(&self) -> (r: usize)
        requires
            self.wf(),
        ensures
            self@.dom().finite(),
            r == self@.dom().len(),
    {
        proof {
            lemma_entries_map_size(self.entries@);
        }
        self.entries.len()
    }

    fn find(&self, name: &String) -> (r: Option<usize>)
        ensures
            match r {
                Some(i) => i < self.entries@.len() && self.entries@[i as int].0@ == name@,
                None => forall|j: int| 0 <= j < self.entries@.len()
                    ==> self.entries@[j].0@ != name@,
            },
    {
        let n = self.entries.len();
        let mut i: usize = 0;
        while i < n
            invariant
                n == self.entries@.len(),
                0 <= i <= n,
                forall|j: int| 0 <= j < i ==> self.entries@[j].0@ != name@,
            decreases n - i,
        {
            if self.entries[i].0.eq(name) {
                return Some(i);
            }
            i += 1;
        }
        None
    }

    pub fn contains(&self, name: &String) -> (r: bool)
        requires
            self.wf(),
        ensures
            r == self@.contains_key(name@),
    {
        proof {
            lemma_entries_map_contains(self.entries@, name@);
        }
        match self.find(name) {
            Some(_) => true,
            None => false,
        }
    }

    /// The value currently registered under `name`, if any.
    pub fn get(&self, name: &String) -> (r: Option<V>)
        requires
            self.wf(),
        ensures
            match r {
                Some(v) => self@.contains_key(name@) && self@[name@] == v,
                None => !self@.contains_key(name@),
            },
    {
        match self.find(name) {
            Some(i) => {
                proof {
                    lemma_entries_map_index(self.entries@, name@, i as int);
                }
                Some(self.entries[i].1)
            },
            None => {
                proof {
                    lemma_entries_map_contains(self.entries@, name@);
                }
                None
            },
        }
    }

    /// Every entry at once, for an external observer: each registered
    /// name with its current value, one entry per name.
    pub fn get_all(&self) -> (r: Vec<(String, V)>)
        requires
            self.wf(),
        ensures
            self@.dom().finite(),
            r@.len() == self@.dom().len(),
            forall|i: int, j: int| 0 <= i < j < r@.len() ==> r@[i].0@ != r@[j].0@,
            forall|i: int|
                0 <= i < r@.len() ==> self@.contains_key(#[trigger] r@[i].0@) && self@[r@[i].0@]
                    == r@[i].1,
    {
        proof {
            lemma_entries_map_size(self.entries@);
        }
        let n = self.entries.len();
        let mut r: Vec<(String, V)> = Vec::new();
        let mut i: usize = 0;
        while i < n
            invariant
                self.wf(),
                n == self.entries@.len(),
                0 <= i <= n,
                r@.len() == i,
                forall|j: int| 0 <= j < i ==> r@[j] == self.entries@[j],
            decreases n - i,
        {
            r.push((self.entries[i].0.clone(), self.entries[i].1));
            i += 1;
        }
        proof {
            assert forall|j: int| 0 <= j < r@.len() implies self@.contains_key(
                #[trigger] r@[j].0@,
            ) && self@[r@[j].0@] == r@[j].1 by {
                lemma_entries_map_index(self.entries@, self.entries@[j].0@, j);
            }
        }
        r
    }

    /// Registers `value` under `name`, overwriting any earlier value:
    /// last write wins.
    pub fn insert(&mut self, name: String, value: V)
        requires
            old(self).wf(),
        ensures
            final(self).wf(),
            final(self)@ == old(self)@.insert(name@, value),
    {
        let ghost s0 = self.entries@;
        match self.find(&name) {
            Some(i) => {
                proof {
                    lemma_entries_map_remove(s0, i as int);
                    assert(forall|j: int|
                        0 <= j < s0.len() && j != i ==> s0[j].0@ != name@);
                }
                self.entries.remove(i);
                let ghost s1 = self.entries@;
                self.entries.push((name, value));
                proof {
                    assert(self.entries@.drop_last() =~= s1);
                    assert(forall|j: int| 0 <= j < s1.len() ==> s1[j].0@ != name@);
                    assert(entries_map(self.entries@) =~= entries_map(s0).insert(name@, value));
                }
            },
            None => {
                self.entries.push((name, value));
                proof {
                    assert(self.entries@.drop_last() =~= s0);
                }
            },
        }
    }

    /// Unregisters `name`.  Removing a name that is not registered is
    /// a no-op that reports `false` and leaves every other entry
    /// untouched.
    pub fn remove(&mut self, name: &String) -> (r: bool)
        requires
            old(self).wf(),
        ensures
            final(self).wf(),
            r == old(self)@.contains_key(name@),
            r ==> final(self)@ == old(self)@.remove(name@),
            !r ==> final(self)@ == old(self)@,
    {
        let ghost s0 = self.entries@;
        match self.find(name) {
            Some(i) => {
                proof {
                    lemma_entries_map_contains(s0, name@);
                    lemma_entries_map_remove(s0, i as int);
                }
                self.entries.remove(i);
                true
            },
            None => {
                proof {
                    lemma_entries_map_contains(s0, name@);
                }
                false
            },
        }
    }
}

} // verus!
