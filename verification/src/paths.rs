//! Paths as text, with joining, equality and ordering taken from `camino`,
//! and the stable de-duplication of a list of paths.

use vstd::prelude::*;

verus! {

/// The text of the path that `camino::Utf8Path::join` builds from the path
/// `base` and the path `path` adjoined to it.
pub uninterp spec fn joined_path(base: Seq<char>, path: Seq<char>) -> Seq<char>;

/// Whether `camino::Utf8Path`'s `==` holds between the paths with the texts
/// `a` and `b`. It compares the paths component by component, so two
/// different texts can denote the same path.
pub uninterp spec fn same_path(a: Seq<char>, b: Seq<char>) -> bool;

/// Whether the path with the text `a` is strictly less than the one with the
/// text `b` in the order of `camino::Utf8Path`, which is the order in which a
/// sorted set of such paths is walked.
pub uninterp spec fn path_precedes(a: Seq<char>, b: Seq<char>) -> bool;

/// Calls `camino::Utf8Path::join` on `base` with `path`. Trusted: the result's
/// text is what that call builds from the two texts, which is a function of
/// them alone on a given platform.
#[verifier::external_body]
pub(crate) fn join_path(base: &str, path: &str) -> (joined: String)
    ensures
        joined@ == joined_path(base@, path@),
{
    camino::Utf8Path::new(base).join(path).into_string()
}

/// Compares two paths with `camino::Utf8Path`'s `==`. Trusted: the answer is
/// that of the component-wise comparison of the two texts.
#[verifier::external_body]
pub(crate) fn paths_equal(a: &str, b: &str) -> (equal: bool)
    ensures
        equal == same_path(a@, b@),
{
    camino::Utf8Path::new(a) == camino::Utf8Path::new(b)
}

/// Compares two paths with `camino::Utf8Path`'s `<`. Trusted: the answer is
/// that of the component-wise ordering of the two texts.
#[verifier::external_body]
pub(crate) fn path_sorts_before(a: &str, b: &str) -> (before: bool)
    ensures
        before == path_precedes(a@, b@),
{
    camino::Utf8Path::new(a) < camino::Utf8Path::new(b)
}

/// Whether some entry of `paths` is the same path as `path`.
pub open spec fn occurs_in(paths: Seq<Seq<char>>, path: Seq<char>) -> bool {
    exists|i: int| 0 <= i < paths.len() && same_path(#[trigger] paths[i], path)
}

/// `paths` without its repetitions: an entry stays exactly when no entry kept
/// before it is the same path, and the entries that stay keep their order.
pub open spec fn first_occurrences(paths: Seq<Seq<char>>) -> Seq<Seq<char>>
    decreases paths.len(),
{
    if paths.len() == 0 {
        Seq::empty()
    } else {
        let kept = first_occurrences(paths.drop_last());
        if occurs_in(kept, paths.last()) {
            kept
        } else {
            kept.push(paths.last())
        }
    }
}

/// Whether `paths` already holds the path `path`.
pub fn contains_path(paths: &Vec<String>, path: &str) -> (found: bool)
    ensures
        found == occurs_in(paths.deep_view(), path@),
{
    let mut i: usize = 0;
    while i < paths.len()
        invariant
            i <= paths.len(),
            forall|k: int| 0 <= k < i ==> !same_path(#[trigger] paths.deep_view()[k], path@),
        decreases paths.len() - i,
    {
        if paths_equal(paths[i].as_str(), path) {
            assert(same_path(paths.deep_view()[i as int], path@));
            return true;
        }
        i += 1;
    }
    false
}

/// Removes the repetitions from `paths`, keeping the first occurrence of each
/// path at its place.
pub fn unique_paths(paths: &Vec<String>) -> (unique: Vec<String>)
    ensures
        unique.deep_view() == first_occurrences(paths.deep_view()),
{
    let mut unique: Vec<String> = Vec::new();
    let mut i: usize = 0;
    while i < paths.len()
        invariant
            i <= paths.len(),
            unique.deep_view() == first_occurrences(paths.deep_view().take(i as int)),
        decreases paths.len() - i,
    {
        let ghost before = paths.deep_view().take(i as int);
        let ghost upto = paths.deep_view().take(i + 1);
        assert(upto.drop_last() == before);
        assert(upto.last() == paths[i as int]@);
        if !contains_path(&unique, paths[i].as_str()) {
            let ghost kept = unique.deep_view();
            unique.push(paths[i].clone());
            assert(unique.deep_view() == kept.push(paths[i as int]@));
        }
        i += 1;
    }
    assert(paths.deep_view().take(paths.len() as int) == paths.deep_view());
    unique
}

/// Whether every entry of `paths` is strictly less than the entry after it.
pub open spec fn strictly_ascending(paths: Seq<Seq<char>>) -> bool {
    forall|i: int| 0 <= i < paths.len() - 1 ==> path_precedes(#[trigger] paths[i], paths[i + 1])
}

/// The number of entries at the front of `paths` that are strictly less than
/// `path`: the place at which a sorted list takes `path` in.
pub open spec fn insertion_index(paths: Seq<Seq<char>>, path: Seq<char>) -> nat
    decreases paths.len(),
{
    if paths.len() > 0 && path_precedes(paths.first(), path) {
        1 + insertion_index(paths.drop_first(), path)
    } else {
        0
    }
}

/// Whether the sorted list `paths` holds `path` already: the entry at the
/// place of `path` is neither less nor greater than it.
pub open spec fn holds_path(paths: Seq<Seq<char>>, path: Seq<char>) -> bool {
    let i = insertion_index(paths, path) as int;
    i < paths.len() && !path_precedes(path, paths[i])
}

/// The sorted list `paths` after `path` was added to it: unchanged where it
/// holds `path` already, else with `path` at its place.
pub open spec fn with_path(paths: Seq<Seq<char>>, path: Seq<char>) -> Seq<Seq<char>> {
    if holds_path(paths, path) {
        paths
    } else {
        paths.insert(insertion_index(paths, path) as int, path)
    }
}

/// The entries before the place of `path` are all less than it, and the entry
/// at that place, if there is one, is not.
pub proof fn lemma_insertion_index(paths: Seq<Seq<char>>, path: Seq<char>)
    ensures
        insertion_index(paths, path) <= paths.len(),
        forall|k: int|
            0 <= k < insertion_index(paths, path) ==> path_precedes(#[trigger] paths[k], path),
        insertion_index(paths, path) < paths.len() ==> !path_precedes(
            paths[insertion_index(paths, path) as int],
            path,
        ),
    decreases paths.len(),
{
    if paths.len() > 0 && path_precedes(paths.first(), path) {
        let rest = paths.drop_first();
        lemma_insertion_index(rest, path);
        assert forall|k: int| 0 <= k < insertion_index(paths, path) implies path_precedes(
            #[trigger] paths[k],
            path,
        ) by {
            if k > 0 {
                assert(paths[k] == rest[k - 1]);
            }
        }
        if insertion_index(paths, path) < paths.len() {
            assert(paths[insertion_index(paths, path) as int] == rest[insertion_index(rest, path) as int]);
        }
    }
}

/// Adding a path to a sorted list leaves it sorted.
pub proof fn lemma_with_path_ascending(paths: Seq<Seq<char>>, path: Seq<char>)
    requires
        strictly_ascending(paths),
    ensures
        strictly_ascending(with_path(paths, path)),
{
    lemma_insertion_index(paths, path);
    if !holds_path(paths, path) {
        let i = insertion_index(paths, path) as int;
        let grown = paths.insert(i, path);
        assert forall|k: int| 0 <= k < grown.len() - 1 implies path_precedes(
            #[trigger] grown[k],
            grown[k + 1],
        ) by {
            if k < i - 1 {
                assert(grown[k] == paths[k] && grown[k + 1] == paths[k + 1]);
            } else if k == i - 1 {
                assert(grown[k] == paths[k] && grown[k + 1] == path);
            } else if k == i {
                assert(grown[k] == path && grown[k + 1] == paths[i]);
            } else {
                assert(grown[k] == paths[k - 1] && grown[k + 1] == paths[k]);
            }
        }
    }
}

/// Finds the place of `path` in the sorted list `paths`.
pub(crate) fn insertion_point(paths: &Vec<String>, path: &str) -> (i: usize)
    ensures
        i == insertion_index(paths.deep_view(), path@),
        i <= paths.len(),
{
    let ghost all = paths.deep_view();
    let mut i: usize = 0;
    assert(all.skip(0) =~= all);
    while i < paths.len() && path_sorts_before(paths[i].as_str(), path)
        invariant
            i <= paths.len(),
            all == paths.deep_view(),
            insertion_index(all, path@) == i + insertion_index(all.skip(i as int), path@),
        decreases paths.len() - i,
    {
        assert(all.skip(i as int).first() == all[i as int]);
        assert(all.skip(i as int).drop_first() == all.skip(i + 1));
        i += 1;
    }
    proof {
        if i < paths.len() {
            assert(all.skip(i as int).first() == all[i as int]);
        }
    }
    i
}

/// Whether no entry of `paths` is the same path as an entry before it.
pub open spec fn no_repetition(paths: Seq<Seq<char>>) -> bool {
    forall|i: int, j: int|
        0 <= i < j < paths.len() ==> !same_path(#[trigger] paths[i], #[trigger] paths[j])
}

/// A list without its repetitions holds no path twice.
pub proof fn lemma_first_occurrences_no_repetition(paths: Seq<Seq<char>>)
    ensures
        no_repetition(first_occurrences(paths)),
    decreases paths.len(),
{
    if paths.len() > 0 {
        lemma_first_occurrences_no_repetition(paths.drop_last());
    }
}

/// Every entry of a list without its repetitions is an entry of the list.
pub proof fn lemma_first_occurrences_from_list(paths: Seq<Seq<char>>)
    ensures
        forall|k: int|
            0 <= k < first_occurrences(paths).len() ==> paths.contains(
                #[trigger] first_occurrences(paths)[k],
            ),
    decreases paths.len(),
{
    if paths.len() > 0 {
        let shorter = paths.drop_last();
        lemma_first_occurrences_from_list(shorter);
        assert forall|k: int| 0 <= k < first_occurrences(paths).len() implies paths.contains(
            #[trigger] first_occurrences(paths)[k],
        ) by {
            let entry = first_occurrences(paths)[k];
            if k < first_occurrences(shorter).len() {
                assert(shorter.contains(entry));
                let at = choose|at: int| 0 <= at < shorter.len() && shorter[at] == entry;
                assert(paths[at] == entry);
            } else {
                assert(paths[paths.len() - 1] == entry);
            }
        }
    }
}

/// Every entry of a list is still there when the repetitions are gone: it
/// stayed itself, or an entry that is the same path did.
pub proof fn lemma_first_occurrences_covers(paths: Seq<Seq<char>>)
    ensures
        forall|k: int|
            0 <= k < paths.len() ==> first_occurrences(paths).contains(#[trigger] paths[k])
                || occurs_in(first_occurrences(paths), paths[k]),
    decreases paths.len(),
{
    if paths.len() > 0 {
        let shorter = paths.drop_last();
        let kept = first_occurrences(shorter);
        let all = first_occurrences(paths);
        lemma_first_occurrences_covers(shorter);
        assert forall|k: int| 0 <= k < paths.len() implies all.contains(#[trigger] paths[k])
            || occurs_in(all, paths[k]) by {
            if k < shorter.len() {
                assert(paths[k] == shorter[k]);
                if kept.contains(shorter[k]) {
                    let at = choose|at: int| 0 <= at < kept.len() && kept[at] == shorter[k];
                    assert(all[at] == paths[k]);
                } else {
                    let at = choose|at: int|
                        0 <= at < kept.len() && same_path(#[trigger] kept[at], shorter[k]);
                    assert(same_path(all[at], paths[k]));
                }
            } else if occurs_in(kept, paths.last()) {
            } else {
                assert(all[all.len() - 1] == paths[k]);
            }
        }
    }
}

/// What a list keeps when its repetitions go does not depend on what comes
/// after it: the first occurrences of `front` are the front of those of
/// `front + back`.
pub proof fn lemma_first_occurrences_prefix(front: Seq<Seq<char>>, back: Seq<Seq<char>>)
    ensures
        first_occurrences(front).is_prefix_of(first_occurrences(front + back)),
    decreases back.len(),
{
    if back.len() == 0 {
        assert(front + back =~= front);
    } else {
        lemma_first_occurrences_prefix(front, back.drop_last());
        assert((front + back).drop_last() =~= front + back.drop_last());
    }
}

} // verus!
