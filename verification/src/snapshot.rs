//! What a driver found on disk, handed over as a plain list.

use vstd::prelude::*;
use vstd::string::StringExecFns;

verus! {

/// Whether `list` holds `path`.
pub fn contains_path(list: &Vec<String>, path: &String) -> (found: bool)
    ensures
        found == list.deep_view().contains(path@),
{
    let mut i: usize = 0;
    while i < list.len()
        invariant
            i <= list.len(),
            forall|j: int| 0 <= j < i ==> list.deep_view()[j] != path@,
        decreases list.len() - i,
    {
        if list[i] == *path {
            assert(list.deep_view()[i as int] == path@);
            return true;
        }
        i = i + 1;
    }
    false
}

/// The paths that were found to exist when the driver looked.
#[derive(Debug)]
pub struct FileSnapshot {
    present: Vec<String>,
}

impl View for FileSnapshot {
    type V = Set<Seq<char>>;

    closed spec fn view(&self) -> Set<Seq<char>> {
        self.present.deep_view().to_set()
    }
}

impl FileSnapshot {
    /// A snapshot in which exactly the paths of `present` exist.
    pub fn new(present: Vec<String>) -> (snapshot: FileSnapshot)
        ensures
            snapshot@ == present.deep_view().to_set(),
    {
        FileSnapshot { present }
    }

    /// Whether `path` was found to exist.
    pub fn holds(&self, path: &str) -> (found: bool)
        ensures
            found == self@.contains(path@),
    {
        let owned = String::from_str(path);
        contains_path(&self.present, &owned)
    }
}

} // verus!
