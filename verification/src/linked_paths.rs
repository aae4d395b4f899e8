//! The directories that compiled artifacts asked to have searched for
//! libraries, each with the packages that asked for it.

use crate::path_set::PathSet;
use crate::paths::{
    holds_path, insertion_index, insertion_point, lemma_with_path_ascending, path_sorts_before,
    strictly_ascending, with_path,
};
use std::collections::BTreeSet;
use vstd::prelude::*;

verus! {

/// The paths of `links`, in the order of `links`.
pub open spec fn linked_keys(links: Seq<(Seq<char>, Set<Seq<char>>)>) -> Seq<Seq<char>> {
    links.map_values(|link: (Seq<char>, Set<Seq<char>>)| link.0)
}

/// One entry for each path of `paths`, in their order, that no package asked
/// for.
pub open spec fn unrequested(paths: Seq<Seq<char>>) -> Seq<(Seq<char>, Set<Seq<char>>)> {
    paths.map_values(|path: Seq<char>| (path, Set::<Seq<char>>::empty()))
}

/// The sorted map `links` after `path` was given the packages `requested_by`:
/// where `links` holds `path` already, its packages are replaced and its key
/// stays as it was, else the new entry stands at the place of `path`.
pub open spec fn with_link(
    links: Seq<(Seq<char>, Set<Seq<char>>)>,
    path: Seq<char>,
    requested_by: Set<Seq<char>>,
) -> Seq<(Seq<char>, Set<Seq<char>>)> {
    let i = insertion_index(linked_keys(links), path) as int;
    if holds_path(linked_keys(links), path) {
        links.update(i, (links[i].0, requested_by))
    } else {
        links.insert(i, (path, requested_by))
    }
}

/// The keys of a map that was given an entry are the keys it had, with the
/// new path added to them.
pub proof fn lemma_with_link_keys(
    links: Seq<(Seq<char>, Set<Seq<char>>)>,
    path: Seq<char>,
    requested_by: Set<Seq<char>>,
)
    ensures
        linked_keys(with_link(links, path, requested_by)) == with_path(linked_keys(links), path),
{
    crate::paths::lemma_insertion_index(linked_keys(links), path);
    assert(linked_keys(with_link(links, path, requested_by)) =~= with_path(
        linked_keys(links),
        path,
    ));
}

/// A map from linked paths, relative to the target directory, to the packages
/// that asked for each. It is held and walked in the order of the paths, and
/// no path is a key of it twice.
#[derive(Debug, PartialEq, Eq)]
pub struct LinkedPaths {
    paths: Vec<String>,
    requesters: Vec<BTreeSet<String>>,
}

impl View for LinkedPaths {
    type V = Seq<(Seq<char>, Set<Seq<char>>)>;

    /// The entries in the order in which the map is walked: each path with the
    /// set of the packages that asked for it.
    closed spec fn view(&self) -> Seq<(Seq<char>, Set<Seq<char>>)> {
        Seq::new(
            self.paths.len() as nat,
            |i: int| (self.paths[i]@, self.requesters[i].deep_view()),
        )
    }
}

impl LinkedPaths {
    #[verifier::type_invariant]
    spec fn sorted(&self) -> bool {
        &&& self.paths.len() == self.requesters.len()
        &&& strictly_ascending(self.paths.deep_view())
    }

    /// The empty map.
    pub fn new() -> (links: LinkedPaths)
        ensures
            links@ == Seq::<(Seq<char>, Set<Seq<char>>)>::empty(),
    {
        let links = LinkedPaths { paths: Vec::new(), requesters: Vec::new() };
        assert(links.paths.deep_view() =~= Seq::<Seq<char>>::empty());
        assert(links@ =~= Seq::<(Seq<char>, Set<Seq<char>>)>::empty());
        links
    }

    /// The number of linked paths.
    pub fn len(&self) -> (n: usize)
        ensures
            n == self@.len(),
    {
        self.paths.len()
    }

    /// Whether there is no linked path.
    pub fn is_empty(&self) -> (empty: bool)
        ensures
            empty == (self@.len() == 0),
    {
        self.paths.len() == 0
    }

    /// The linked path at place `i` in the order of the map, if there are that
    /// many.
    pub fn path(&self, i: usize) -> (path: Option<&String>)
        ensures
            match path {
                Some(p) => i < self@.len() && p@ == self@[i as int].0,
                None => i >= self@.len(),
            },
    {
        if i < self.paths.len() {
            Some(&self.paths[i])
        } else {
            None
        }
    }

    /// The packages that asked for the linked path at place `i`, if there are
    /// that many paths.
    pub fn requested_by(&self, i: usize) -> (packages: Option<&BTreeSet<String>>)
        ensures
            match packages {
                Some(p) => i < self@.len() && p.deep_view() == self@[i as int].1,
                None => i >= self@.len(),
            },
    {
        proof {
            use_type_invariant(self);
        }
        if i < self.requesters.len() {
            Some(&self.requesters[i])
        } else {
            None
        }
    }

    /// Gives the linked path `path` the packages `requested_by`. Where the map
    /// holds the path already, the packages it had are handed back and its key
    /// stays as it was.
    pub fn insert(&mut self, path: String, requested_by: BTreeSet<String>) -> (replaced: Option<
        BTreeSet<String>,
    >)
        ensures
            final(self)@ == with_link(old(self)@, path@, requested_by.deep_view()),
            linked_keys(final(self)@) == with_path(linked_keys(old(self)@), path@),
            match replaced {
                Some(packages) => holds_path(linked_keys(old(self)@), path@)
                    && packages.deep_view() == old(self)@[insertion_index(
                    linked_keys(old(self)@),
                    path@,
                ) as int].1,
                None => !holds_path(linked_keys(old(self)@), path@),
            },
    {
        proof {
            use_type_invariant(&*self);
        }
        let ghost before = self@;
        let ghost keys = self.paths.deep_view();
        proof {
            assert(linked_keys(before) =~= keys);
            lemma_with_link_keys(before, path@, requested_by.deep_view());
        }
        let i = insertion_point(&self.paths, path.as_str());
        let held = i < self.paths.len() && !path_sorts_before(
            path.as_str(),
            self.paths[i].as_str(),
        );
        let mut taken = LinkedPaths::new();
        std::mem::swap(self, &mut taken);
        let LinkedPaths { paths, requesters } = taken;
        let mut paths = paths;
        let mut requesters = requesters;
        if held {
            let mut packages = requested_by;
            requesters.set_and_swap(i, &mut packages);
            let links = LinkedPaths { paths, requesters };
            assert(links@ =~= with_link(before, path@, requested_by.deep_view()));
            *self = links;
            Some(packages)
        } else {
            paths.insert(i, path);
            requesters.insert(i, requested_by);
            proof {
                assert(paths.deep_view() =~= keys.insert(i as int, path@));
                lemma_with_path_ascending(keys, path@);
            }
            let links = LinkedPaths { paths, requesters };
            assert(links@ =~= with_link(before, path@, requested_by.deep_view()));
            *self = links;
            None
        }
    }

    /// The linked paths alone, as a set.
    pub fn keys(&self) -> (keys: PathSet)
        ensures
            keys@ == linked_keys(self@),
    {
        proof {
            use_type_invariant(self);
        }
        let mut paths: Vec<String> = Vec::new();
        let mut i: usize = 0;
        while i < self.paths.len()
            invariant
                i <= self.paths.len(),
                paths.deep_view() == self.paths.deep_view().take(i as int),
            decreases self.paths.len() - i,
        {
            let ghost copied = paths.deep_view();
            paths.push(self.paths[i].clone());
            assert(paths.deep_view() =~= copied.push(self.paths[i as int]@));
            assert(paths.deep_view() =~= self.paths.deep_view().take(i + 1));
            i += 1;
        }
        assert(paths.deep_view() =~= self.paths.deep_view());
        assert(linked_keys(self@) =~= self.paths.deep_view());
        PathSet::from_sorted(paths)
    }

    /// The map that holds each path of `keys` with no package that asked for
    /// it.
    pub fn from_keys(keys: &PathSet) -> (links: LinkedPaths)
        ensures
            links@ == unrequested(keys@),
    {
        let paths = keys.to_vec();
        let mut requesters: Vec<BTreeSet<String>> = Vec::new();
        let mut i: usize = 0;
        while i < paths.len()
            invariant
                i <= paths.len(),
                requesters.len() == i,
                forall|k: int|
                    0 <= k < i ==> (#[trigger] requesters[k]).deep_view() == Set::<
                        Seq<char>,
                    >::empty(),
            decreases paths.len() - i,
        {
            let packages: BTreeSet<String> = BTreeSet::new();
            assert(packages.deep_view() =~= Set::<Seq<char>>::empty());
            requesters.push(packages);
            i += 1;
        }
        let links = LinkedPaths { paths, requesters };
        assert(links@ =~= unrequested(keys@));
        links
    }
}

impl Clone for LinkedPaths {
    fn clone(&self) -> (copy: LinkedPaths)
        ensures
            copy@ == self@,
    {
        proof {
            use_type_invariant(self);
        }
        let mut paths: Vec<String> = Vec::new();
        let mut requesters: Vec<BTreeSet<String>> = Vec::new();
        let mut i: usize = 0;
        while i < self.paths.len()
            invariant
                i <= self.paths.len(),
                self.paths.len() == self.requesters.len(),
                requesters.len() == i,
                paths.deep_view() == self.paths.deep_view().take(i as int),
                forall|k: int|
                    0 <= k < i ==> (#[trigger] requesters[k]).deep_view()
                        == self.requesters[k].deep_view(),
            decreases self.paths.len() - i,
        {
            let ghost copied = paths.deep_view();
            paths.push(self.paths[i].clone());
            requesters.push(self.requesters[i].clone());
            assert(paths.deep_view() =~= copied.push(self.paths[i as int]@));
            assert(paths.deep_view() =~= self.paths.deep_view().take(i + 1));
            i += 1;
        }
        assert(paths.deep_view() =~= self.paths.deep_view());
        let links = LinkedPaths { paths, requesters };
        assert forall|k: int| 0 <= k < links@.len() implies links@[k] == self@[k] by {
            assert(links.paths.deep_view()[k] == self.paths.deep_view()[k]);
        }
        assert(links@ =~= self@);
        links
    }
}

} // verus!
