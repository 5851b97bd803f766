//! The decision at the heart of the config-file search.
//!
//! The search walks from the working directory upward through every ancestor
//! toward the filesystem root and takes the first directory that holds the
//! config file. Whatever asks the filesystem reports, per ancestor and in
//! walk order, whether the file exists there; this module decides which
//! ancestor, if any, the search settles on. "Not found" is a normal outcome,
//! not an error.

use vstd::prelude::*;

verus! {

/// Given, for each ancestor in walk order (the starting directory first,
/// the root last), whether it holds the config file: the position of the
/// first ancestor that does, or `None` when none does.
pub fn first_config_index(found: &Vec<bool>) -> (r: Option<usize>)
    ensures
        match r {
            Some(i) => i < found@.len() && found@[i as int] && (forall|j: int|
                0 <= j < i ==> !found@[j]),
            None => forall|j: int| 0 <= j < found@.len() ==> !found@[j],
        },
{
    let n: usize = found.len();
    let mut i: usize = 0;
    while i < n
        invariant
            n == found@.len(),
            0 <= i <= n,
            forall|j: int| 0 <= j < i ==> !found@[j],
        decreases n - i,
    {
        if found[i] {
            return Some(i);
        }
        i = i + 1;
    }
    None
}

} // verus!
