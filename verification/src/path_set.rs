//! A set of paths that keeps its entries sorted.

use crate::paths::{
    holds_path, insertion_point, lemma_with_path_ascending, path_sorts_before,
    strictly_ascending, with_path,
};
use vstd::prelude::*;

verus! {

/// A set of paths, held in the order of the paths and walked in that order.
/// No path occurs in it twice.
#[derive(Debug, PartialEq, Eq)]
pub struct PathSet {
    entries: Vec<String>,
}

impl View for PathSet {
    type V = Seq<Seq<char>>;

    /// The texts of the entries, in the order in which the set is walked.
    closed spec fn view(&self) -> Seq<Seq<char>> {
        self.entries.deep_view()
    }
}

impl PathSet {
    #[verifier::type_invariant]
    spec fn sorted(&self) -> bool {
        strictly_ascending(self.entries.deep_view())
    }

    /// The empty set.
    pub fn new() -> (set: PathSet)
        ensures
            set@ == Seq::<Seq<char>>::empty(),
    {
        let set = PathSet { entries: Vec::new() };
        assert(set.entries.deep_view() =~= Seq::<Seq<char>>::empty());
        set
    }

    /// The set of the paths of a list that is sorted already.
    pub(crate) fn from_sorted(entries: Vec<String>) -> (set: PathSet)
        requires
            strictly_ascending(entries.deep_view()),
        ensures
            set@ == entries.deep_view(),
    {
        PathSet { entries }
    }

    /// The number of paths in the set.
    pub fn len(&self) -> (n: usize)
        ensures
            n == self@.len(),
    {
        self.entries.len()
    }

    /// Whether the set is empty.
    pub fn is_empty(&self) -> (empty: bool)
        ensures
            empty == (self@.len() == 0),
    {
        self.entries.len() == 0
    }

    /// The path at place `i` in the order of the set, if there are that many.
    pub fn get(&self, i: usize) -> (path: Option<&String>)
        ensures
            match path {
                Some(p) => i < self@.len() && p@ == self@[i as int],
                None => i >= self@.len(),
            },
    {
        if i < self.entries.len() {
            Some(&self.entries[i])
        } else {
            None
        }
    }

    /// Whether the set holds `path`.
    pub fn contains(&self, path: &str) -> (found: bool)
        ensures
            found == holds_path(self@, path@),
    {
        let i = insertion_point(&self.entries, path);
        i < self.entries.len() && !path_sorts_before(path, self.entries[i].as_str())
    }

    /// Adds `path` to the set, at its place in the order, unless the set holds
    /// it already. Says whether it was added.
    pub fn insert(&mut self, path: String) -> (added: bool)
        ensures
            final(self)@ == with_path(old(self)@, path@),
            added == !holds_path(old(self)@, path@),
    {
        proof {
            use_type_invariant(&*self);
        }
        let i = insertion_point(&self.entries, path.as_str());
        if i < self.entries.len() && !path_sorts_before(path.as_str(), self.entries[i].as_str()) {
            return false;
        }
        let ghost before = self.entries.deep_view();
        let mut taken = PathSet::new();
        std::mem::swap(self, &mut taken);
        let mut entries = taken.entries;
        entries.insert(i, path);
        proof {
            assert(entries.deep_view() =~= before.insert(i as int, path@));
            lemma_with_path_ascending(before, path@);
        }
        *self = PathSet { entries };
        true
    }

    /// The paths of the set, in its order.
    pub fn to_vec(&self) -> (paths: Vec<String>)
        ensures
            paths.deep_view() == self@,
            strictly_ascending(self@),
    {
        proof {
            use_type_invariant(self);
        }
        let mut paths: Vec<String> = Vec::new();
        let mut i: usize = 0;
        while i < self.entries.len()
            invariant
                i <= self.entries.len(),
                paths.deep_view() == self.entries.deep_view().take(i as int),
            decreases self.entries.len() - i,
        {
            let ghost copied = paths.deep_view();
            paths.push(self.entries[i].clone());
            assert(paths.deep_view() =~= copied.push(self.entries[i as int]@));
            assert(paths.deep_view() =~= self.entries.deep_view().take(i + 1));
            i += 1;
        }
        assert(self.entries.deep_view().take(self.entries.len() as int) =~= self.entries.deep_view());
        paths
    }
}

impl Clone for PathSet {
    fn clone(&self) -> (copy: PathSet)
        ensures
            copy@ == self@,
    {
        proof {
            use_type_invariant(self);
        }
        PathSet { entries: self.to_vec() }
    }
}

} // verus!
