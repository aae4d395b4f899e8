//! The directories that are searched for dynamic libraries when a test binary
//! runs, in the order in which the build tool itself puts them.

use crate::paths::{join_path, joined_path};
use crate::platform::{BuildPlatforms, BuildPlatformsView};
use vstd::prelude::*;

verus! {

/// Something that the one who asked for the search path should be told, though
/// the path was computed.
#[derive(Debug, Clone, Copy, PartialEq, Eq, Structural)]
pub enum Diagnostic {
    /// The directory of the compiler's libraries is known neither for the host
    /// nor for the target: tests may fail to be listed or to run.
    LibdirNotDetected,
}

/// The name of the subdirectory of a base output directory that holds the
/// dependencies.
pub open spec fn deps_dir() -> Seq<char> {
    "deps"@
}

/// The linked paths `linked`, each joined to `target_directory`, in their
/// order.
pub open spec fn linked_dirs(target_directory: Seq<char>, linked: Seq<Seq<char>>) -> Seq<
    Seq<char>,
> {
    linked.map_values(|path: Seq<char>| joined_path(target_directory, path))
}

/// The linked paths `linked`, each joined to `target_directory`, that exist:
/// the one at place `i` stays exactly when `exists` has a flag at `i` and it
/// is set. Their order is that of `linked`.
pub open spec fn existing_linked_dirs(
    target_directory: Seq<char>,
    linked: Seq<Seq<char>>,
    exists: Seq<bool>,
) -> Seq<Seq<char>>
    decreases linked.len(),
{
    if linked.len() == 0 {
        Seq::empty()
    } else {
        let earlier = existing_linked_dirs(target_directory, linked.drop_last(), exists);
        let last = linked.len() - 1;
        if last < exists.len() && exists[last] {
            earlier.push(joined_path(target_directory, linked.last()))
        } else {
            earlier
        }
    }
}

/// For each base output directory of `bases`, in their order, two entries:
/// the `deps` subdirectory of the directory joined to `target_directory`,
/// then that directory itself.
pub open spec fn base_output_dirs(target_directory: Seq<char>, bases: Seq<Seq<char>>) -> Seq<
    Seq<char>,
>
    decreases bases.len(),
{
    if bases.len() == 0 {
        Seq::empty()
    } else {
        let base = joined_path(target_directory, bases.last());
        base_output_dirs(target_directory, bases.drop_last()).push(
            joined_path(base, deps_dir()),
        ).push(base)
    }
}

/// The directories of the compiler's libraries that are known: that of the
/// host, then that of the target where there is a target.
pub open spec fn rustc_libdirs(platforms: BuildPlatformsView) -> Seq<Seq<char>> {
    let host = match platforms.host_libdir {
        Some(dir) => seq![dir],
        None => Seq::empty(),
    };
    match platforms.target {
        Some(target) => match target.libdir {
            Some(dir) => host.push(dir),
            None => host,
        },
        None => host,
    }
}

/// Appends to `dirs` the linked paths that exist, each joined to the target
/// directory.
pub fn push_existing_linked_dirs(
    dirs: &mut Vec<String>,
    target_directory: &str,
    linked: &Vec<String>,
    exists: &[bool],
)
    ensures
        final(dirs).deep_view() == old(dirs).deep_view() + existing_linked_dirs(
            target_directory@,
            linked.deep_view(),
            exists@,
        ),
{
    let ghost before = dirs.deep_view();
    let ghost all = linked.deep_view();
    let mut i: usize = 0;
    assert(dirs.deep_view() =~= before + existing_linked_dirs(
        target_directory@,
        all.take(0),
        exists@,
    ));
    while i < linked.len()
        invariant
            i <= linked.len(),
            all == linked.deep_view(),
            dirs.deep_view() == before + existing_linked_dirs(
                target_directory@,
                all.take(i as int),
                exists@,
            ),
        decreases linked.len() - i,
    {
        let ghost held = dirs.deep_view();
        assert(all.take(i + 1).drop_last() =~= all.take(i as int));
        assert(all.take(i + 1).last() == linked[i as int]@);
        if i < exists.len() && exists[i] {
            dirs.push(join_path(target_directory, linked[i].as_str()));
            assert(dirs.deep_view() =~= held.push(
                joined_path(target_directory@, linked[i as int]@),
            ));
        }
        assert(dirs.deep_view() =~= before + existing_linked_dirs(
            target_directory@,
            all.take(i + 1),
            exists@,
        ));
        i += 1;
    }
    assert(all.take(linked.len() as int) =~= all);
}

/// Appends to `dirs`, for each base output directory, its `deps` subdirectory
/// and then the directory, both below the target directory.
pub fn push_base_output_dirs(dirs: &mut Vec<String>, target_directory: &str, bases: &Vec<String>)
    ensures
        final(dirs).deep_view() == old(dirs).deep_view() + base_output_dirs(
            target_directory@,
            bases.deep_view(),
        ),
{
    let ghost before = dirs.deep_view();
    let ghost all = bases.deep_view();
    let mut i: usize = 0;
    assert(dirs.deep_view() =~= before + base_output_dirs(target_directory@, all.take(0)));
    while i < bases.len()
        invariant
            i <= bases.len(),
            all == bases.deep_view(),
            dirs.deep_view() == before + base_output_dirs(target_directory@, all.take(i as int)),
        decreases bases.len() - i,
    {
        let ghost held = dirs.deep_view();
        assert(all.take(i + 1).drop_last() =~= all.take(i as int));
        assert(all.take(i + 1).last() == bases[i as int]@);
        let base = join_path(target_directory, bases[i].as_str());
        let with_deps = join_path(base.as_str(), "deps");
        dirs.push(with_deps);
        dirs.push(base);
        assert(dirs.deep_view() =~= held.push(with_deps@).push(base@));
        assert(dirs.deep_view() =~= before + base_output_dirs(
            target_directory@,
            all.take(i + 1),
        ));
        i += 1;
    }
    assert(all.take(bases.len() as int) =~= all);
}

/// The directories of the compiler's libraries that `platforms` knows.
pub fn libdirs(platforms: &BuildPlatforms) -> (dirs: Vec<String>)
    ensures
        dirs.deep_view() == rustc_libdirs(platforms@),
{
    let mut dirs: Vec<String> = Vec::new();
    assert(dirs.deep_view() =~= Seq::<Seq<char>>::empty());
    match &platforms.host_libdir {
        Some(dir) => {
            dirs.push(dir.clone());
            assert(dirs.deep_view() =~= seq![dir@]);
        },
        None => {},
    }
    let ghost host = dirs.deep_view();
    match &platforms.target {
        Some(target) => match &target.libdir {
            Some(dir) => {
                dirs.push(dir.clone());
                assert(dirs.deep_view() =~= host.push(dir@));
            },
            None => {},
        },
        None => {},
    }
    dirs
}

} // verus!
