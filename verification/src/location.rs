//! Directories, named by the steps that lead to them.

use vstd::prelude::*;

verus! {

/// A directory: a path to start from, as the user set it, and the names of
/// the directories to go down through from there.
///
/// Its view is the sequence of all these steps, the starting path first.
#[derive(Debug, PartialEq, Eq)]
pub struct Location {
    pub base: String,
    pub below: Vec<String>,
}

impl View for Location {
    type V = Seq<Seq<char>>;

    open spec fn view(&self) -> Seq<Seq<char>> {
        seq![self.base@] + self.below.deep_view()
    }
}

/// A copy of `names`, text by text.
fn clone_names(names: &Vec<String>) -> (copy: Vec<String>)
    ensures
        copy.deep_view() == names.deep_view(),
{
    let mut copy: Vec<String> = Vec::new();
    let mut i: usize = 0;
    while i < names.len()
        invariant
            i <= names.len(),
            copy.len() == i,
            forall|j: int| 0 <= j < i ==> copy[j]@ == names[j]@,
        decreases names.len() - i,
    {
        copy.push(names[i].clone());
        i += 1;
    }
    copy
}

impl Location {
    /// The directory at `path` itself.
    pub fn root(path: String) -> (location: Location)
        ensures
            location@ == seq![path@],
    {
        Location { base: path, below: Vec::new() }
    }

    /// The directory `name` in this directory.
    pub fn child(&self, name: String) -> (location: Location)
        ensures
            location@ == self@.push(name@),
    {
        let mut below = clone_names(&self.below);
        below.push(name);
        Location { base: self.base.clone(), below }
    }
}

impl Clone for Location {
    fn clone(&self) -> (copy: Location)
        ensures
            copy@ == self@,
    {
        Location { base: self.base.clone(), below: clone_names(&self.below) }
    }
}

} // verus!
