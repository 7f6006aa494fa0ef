//! The dependency verifier: a view dataset may only be attached once
//! every table its query references is declared in the current
//! specification.

use vstd::prelude::*;
use crate::component::{Dataset, is_view_dataset};

verus! {

pub open spec fn all_tables_known(deps: Seq<Seq<char>>, known: Seq<Seq<char>>) -> bool {
    forall|i: int| 0 <= i < deps.len() ==> known.contains(deps[i])
}

/// Whether a dataset may proceed to attachment.  A non-view dataset
/// always may; a view may exactly when the engine could list its
/// referenced tables and every one of them is a declared dataset name.
pub open spec fn spec_verify_dependent_tables(
    ds: Dataset,
    known: Seq<Seq<char>>,
    fetched: Option<Vec<String>>,
) -> bool {
    if !is_view_dataset(ds) {
        true
    } else {
        match fetched {
            None => false,
            Some(deps) => all_tables_known(deps.deep_view(), known),
        }
    }
}

/// Whether `name` occurs in `names`.
pub fn contains_name(names: &Vec<String>, name: &String) -> (r: bool)
    ensures
        r == names.deep_view().contains(name@),
{
    let n = names.len();
    let mut i: usize = 0;
    while i < n
        invariant
            n == names@.len(),
            0 <= i <= n,
            forall|j: int| 0 <= j < i ==> names.deep_view()[j] != name@,
        decreases n - i,
    {
        if names[i].eq(name) {
            assert(names.deep_view()[i as int] == name@);
            return true;
        }
        i += 1;
    }
    false
}

/// Decides whether `ds` may proceed to attachment.  `known` is the
/// full set of dataset names declared in the current specification
/// (not only those already loaded, so interdependent datasets can be
/// declared in one snapshot); `fetched` is what the query engine
/// reported as the tables the view's query references, or `None` when
/// that analysis itself failed.
pub fn verify_dependent_tables(
    ds: &Dataset,
    known: &Vec<String>,
    fetched: &Option<Vec<String>>,
) -> (r: bool)
    ensures
        r == spec_verify_dependent_tables(*ds, known.deep_view(), *fetched),
{
    if ds.view_sql.is_none() {
        return true;
    }
    match fetched {
        None => false,
        Some(deps) => {
            let n = deps.len();
            let mut i: usize = 0;
            while i < n
                invariant
                    n == deps@.len(),
                    n == deps.deep_view().len(),
                    0 <= i <= n,
                    forall|j: int| 0 <= j < i
                        ==> known.deep_view().contains(deps.deep_view()[j]),
                    spec_verify_dependent_tables(*ds, known.deep_view(), *fetched)
                        == all_tables_known(deps.deep_view(), known.deep_view()),
                decreases n - i,
            {
                if !contains_name(known, &deps[i]) {
                    assert(!known.deep_view().contains(deps.deep_view()[i as int]));
                    assert(!all_tables_known(deps.deep_view(), known.deep_view()));
                    return false;
                }
                i += 1;
            }
            true
        },
    }
}

} // verus!
