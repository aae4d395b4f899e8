//! What holds of every summary and of every search path: the rules by which
//! the platforms of a summary are resolved, and what a search path holds.

use crate::dylib::{base_output_dirs, existing_linked_dirs, rustc_libdirs};
use crate::errors::{multiple_targets_message, ParseErrorView};
use crate::linked_paths::linked_keys;
use crate::meta::{
    dylib_candidates, dylib_search_path, meta_from_summary, summary_of, RustBuildMetaView,
};
use crate::paths::{
    first_occurrences, joined_path, lemma_first_occurrences_covers,
    lemma_first_occurrences_from_list, lemma_first_occurrences_no_repetition,
    lemma_first_occurrences_prefix, no_repetition, occurs_in,
};
use crate::platform::{legacy_target, recognized_triple};
use crate::summary::{PlatformDescriptor, RustBuildMetaSummaryView};
use vstd::prelude::*;

verus! {

/// A summary without platforms in any shape describes a build on the platform
/// that this code was built for, with no target and no directory of
/// libraries; it describes nothing where that platform is not known.
pub proof fn lemma_no_platforms_resolve_to_current_host(
    summary: RustBuildMetaSummaryView,
    current_host: Option<Seq<char>>,
)
    requires
        summary.platforms is None,
        summary.target_platforms.len() == 0,
        summary.target_platform is None,
    ensures
        match current_host {
            Some(host) => meta_from_summary(summary, current_host) matches Ok(meta)
                && meta.build_platforms.host == host && meta.build_platforms.host_libdir is None
                && meta.build_platforms.target is None,
            None => meta_from_summary(summary, current_host) == Err::<
                RustBuildMetaView,
                ParseErrorView,
            >(ParseErrorView::UnknownHostPlatform),
        },
{
}

/// A summary that names its target by the single triple only, and whose
/// triple is recognized, describes a build for the target with that triple
/// and no directory of libraries.
pub proof fn lemma_legacy_triple_resolves_to_target(
    summary: RustBuildMetaSummaryView,
    current_host: Seq<char>,
)
    requires
        summary.platforms is None,
        summary.target_platforms.len() == 0,
        summary.target_platform is Some,
        recognized_triple(summary.target_platform->0),
    ensures
        meta_from_summary(summary, Some(current_host)) matches Ok(meta)
            && meta.build_platforms.host == current_host && meta.build_platforms.target == Some(
            PlatformDescriptor { triple: summary.target_platform->0, libdir: None },
        ),
{
}

/// Where a summary has the platforms in the structured shape, the two older
/// fields and the platform that this code was built for play no part in what
/// it describes.
pub proof fn lemma_structured_platforms_decide(
    summary: RustBuildMetaSummaryView,
    other: RustBuildMetaSummaryView,
    current_host: Option<Seq<char>>,
    other_host: Option<Seq<char>>,
)
    requires
        summary.platforms is Some,
        other == (RustBuildMetaSummaryView {
            target_platforms: other.target_platforms,
            target_platform: other.target_platform,
            ..summary
        }),
    ensures
        meta_from_summary(summary, current_host) == meta_from_summary(other, other_host),
{
}

/// A summary with two or more targets in the structured shape is not
/// supported, whatever else it holds.
pub proof fn lemma_multiple_targets_unsupported(
    summary: RustBuildMetaSummaryView,
    current_host: Option<Seq<char>>,
)
    requires
        summary.platforms is Some,
        summary.platforms->0.targets.len() >= 2,
    ensures
        meta_from_summary(summary, current_host) == Err::<RustBuildMetaView, ParseErrorView>(
            ParseErrorView::Unsupported { message: multiple_targets_message() },
        ),
{
}

/// The triples that decide what a summary describes, in the order in which
/// they are looked at: in the structured shape those of the host and of the
/// target, else that of the target which the older fields name.
pub open spec fn consulted_triples(summary: RustBuildMetaSummaryView) -> Seq<Seq<char>> {
    match summary.platforms {
        Some(structured) => seq![structured.host.triple] + structured.targets.map_values(
            |target: PlatformDescriptor| target.triple,
        ),
        None => if summary.target_platforms.len() > 0 {
            seq![summary.target_platforms[0]]
        } else {
            match summary.target_platform {
                Some(triple) => seq![triple],
                None => Seq::empty(),
            }
        },
    }
}

/// A summary that is supported and in which a triple that is looked at is not
/// recognized gives the error for an invalid platform string, with the first
/// such triple.
pub proof fn lemma_unrecognized_triple_is_error(
    summary: RustBuildMetaSummaryView,
    current_host: Option<Seq<char>>,
    at: int,
)
    requires
        summary.platforms is Some ==> summary.platforms->0.targets.len() <= 1,
        0 <= at < consulted_triples(summary).len(),
        !recognized_triple(consulted_triples(summary)[at]),
        forall|before: int|
            0 <= before < at ==> recognized_triple(#[trigger] consulted_triples(summary)[before]),
    ensures
        meta_from_summary(summary, current_host) == Err::<RustBuildMetaView, ParseErrorView>(
            ParseErrorView::InvalidPlatformString { triple: consulted_triples(summary)[at] },
        ),
{
    if summary.platforms is Some && at == 1 {
        assert(recognized_triple(consulted_triples(summary)[0]));
    }
}

/// Reading a summary yields metadata or one of the three errors, and metadata
/// exactly when the summary is supported, every triple that is looked at is
/// recognized, and a host is named or known.
pub proof fn lemma_summary_is_read_or_rejected(
    summary: RustBuildMetaSummaryView,
    current_host: Option<Seq<char>>,
)
    ensures
        meta_from_summary(summary, current_host) is Ok <==> {
            &&& summary.platforms is Some ==> summary.platforms->0.targets.len() <= 1
            &&& forall|at: int|
                0 <= at < consulted_triples(summary).len() ==> recognized_triple(
                    #[trigger] consulted_triples(summary)[at],
                )
            &&& summary.platforms is None ==> current_host is Some
        },
{
    if summary.platforms is Some {
        let structured = summary.platforms->0;
        if structured.targets.len() <= 1 {
            if meta_from_summary(summary, current_host) is Ok {
                assert forall|at: int|
                    0 <= at < consulted_triples(summary).len() implies recognized_triple(
                    #[trigger] consulted_triples(summary)[at],
                ) by {
                    if at == 1 {
                        assert(consulted_triples(summary)[1] == structured.targets[0].triple);
                    }
                }
            } else {
                if recognized_triple(structured.host.triple) {
                    assert(consulted_triples(summary)[1] == structured.targets[0].triple);
                } else {
                    assert(consulted_triples(summary)[0] == structured.host.triple);
                }
            }
        }
    } else if consulted_triples(summary).len() > 0 {
        assert(Some(consulted_triples(summary)[0]) == legacy_target(
            summary.target_platforms,
            summary.target_platform,
        ));
    }
}

/// The summary of the metadata that a summary in the structured shape
/// describes holds the platforms that the summary held, and a summary that
/// named its one target in the two older fields as well gets those back too.
pub proof fn lemma_summary_round_trip(
    summary: RustBuildMetaSummaryView,
    current_host: Option<Seq<char>>,
)
    requires
        summary.platforms is Some,
        meta_from_summary(summary, current_host) is Ok,
    ensures
        ({
            let written = summary_of(meta_from_summary(summary, current_host)->Ok_0);
            let targets = summary.platforms->0.targets;
            &&& written.platforms == summary.platforms
            &&& written.target_directory == summary.target_directory
            &&& written.base_output_directories == summary.base_output_directories
            &&& written.non_test_binaries == summary.non_test_binaries
            &&& written.build_script_out_dirs == summary.build_script_out_dirs
            &&& written.linked_paths == summary.linked_paths
            &&& targets.len() == 1 && summary.target_platform == Some(targets[0].triple)
                ==> written.target_platform == summary.target_platform
            &&& targets.len() == 1 && summary.target_platforms == seq![targets[0].triple]
                ==> written.target_platforms == summary.target_platforms
        }),
{
    let meta = meta_from_summary(summary, current_host)->Ok_0;
    let written = summary_of(meta);
    let structured = summary.platforms->0;
    assert(written.platforms->0.targets =~= structured.targets);
    assert(written.linked_paths =~= summary.linked_paths);
}

/// A search path holds no directory twice.
pub proof fn lemma_search_path_no_repetition(meta: RustBuildMetaView, exists: Seq<bool>)
    ensures
        no_repetition(dylib_search_path(meta, exists)),
{
    lemma_first_occurrences_no_repetition(dylib_candidates(meta, exists));
}

/// Every candidate is in the search path: it stands there itself, or a
/// directory that is the same path does.
pub proof fn lemma_search_path_covers_candidates(meta: RustBuildMetaView, exists: Seq<bool>)
    ensures
        forall|k: int|
            0 <= k < dylib_candidates(meta, exists).len() ==> dylib_search_path(
                meta,
                exists,
            ).contains(#[trigger] dylib_candidates(meta, exists)[k]) || occurs_in(
                dylib_search_path(meta, exists),
                dylib_candidates(meta, exists)[k],
            ),
{
    lemma_first_occurrences_covers(dylib_candidates(meta, exists));
}

/// The linked paths that exist come first in a search path, before anything
/// that the base output directories or the compiler's libraries add.
pub proof fn lemma_linked_paths_come_first(meta: RustBuildMetaView, exists: Seq<bool>)
    ensures
        first_occurrences(
            existing_linked_dirs(meta.target_directory, linked_keys(meta.linked_paths), exists),
        ).is_prefix_of(dylib_search_path(meta, exists)),
{
    let linked = existing_linked_dirs(
        meta.target_directory,
        linked_keys(meta.linked_paths),
        exists,
    );
    let rest = base_output_dirs(meta.target_directory, meta.base_output_directories)
        + rustc_libdirs(meta.build_platforms);
    assert(dylib_candidates(meta, exists) =~= linked + rest);
    lemma_first_occurrences_prefix(linked, rest);
}

/// The directories of the linked paths that exist are those of the paths
/// whose flag is set: a directory is among them exactly when it is that of
/// such a path.
pub proof fn lemma_existing_linked_dirs(
    target_directory: Seq<char>,
    linked: Seq<Seq<char>>,
    exists: Seq<bool>,
    dir: Seq<char>,
)
    ensures
        existing_linked_dirs(target_directory, linked, exists).contains(dir) <==> exists|i: int|
            0 <= i < linked.len() && i < exists.len() && exists[i] && joined_path(
                target_directory,
                #[trigger] linked[i],
            ) == dir,
    decreases linked.len(),
{
    let all = existing_linked_dirs(target_directory, linked, exists);
    if linked.len() > 0 {
        let shorter = linked.drop_last();
        let earlier = existing_linked_dirs(target_directory, shorter, exists);
        let last = linked.len() - 1;
        lemma_existing_linked_dirs(target_directory, shorter, exists, dir);
        if all.contains(dir) {
            let at = choose|at: int| 0 <= at < all.len() && all[at] == dir;
            if at < earlier.len() {
                assert(earlier[at] == dir);
                assert(earlier.contains(dir));
                let i = choose|i: int|
                    0 <= i < shorter.len() && i < exists.len() && exists[i] && joined_path(
                        target_directory,
                        #[trigger] shorter[i],
                    ) == dir;
                assert(linked[i] == shorter[i]);
            } else {
                assert(joined_path(target_directory, linked[last]) == dir);
            }
        }
        if exists|i: int|
            0 <= i < linked.len() && i < exists.len() && exists[i] && joined_path(
                target_directory,
                #[trigger] linked[i],
            ) == dir {
            let i = choose|i: int|
                0 <= i < linked.len() && i < exists.len() && exists[i] && joined_path(
                    target_directory,
                    #[trigger] linked[i],
                ) == dir;
            if i < last {
                assert(shorter[i] == linked[i]);
                assert(earlier.contains(dir));
                let at = choose|at: int| 0 <= at < earlier.len() && earlier[at] == dir;
                assert(all[at] == dir);
            } else {
                assert(all[all.len() - 1] == dir);
            }
        }
    }
}

/// The directory of a linked path that does not exist is not in the search
/// path, unless it is there for another reason: as the directory of a linked
/// path that exists, below a base output directory, or as a directory of the
/// compiler's libraries.
pub proof fn lemma_absent_linked_path_left_out(
    meta: RustBuildMetaView,
    exists: Seq<bool>,
    dir: Seq<char>,
)
    requires
        forall|i: int|
            0 <= i < meta.linked_paths.len() && i < exists.len() && exists[i] ==> joined_path(
                meta.target_directory,
                #[trigger] linked_keys(meta.linked_paths)[i],
            ) != dir,
        !base_output_dirs(meta.target_directory, meta.base_output_directories).contains(dir),
        !rustc_libdirs(meta.build_platforms).contains(dir),
    ensures
        !dylib_search_path(meta, exists).contains(dir),
{
    let keys = linked_keys(meta.linked_paths);
    let linked = existing_linked_dirs(meta.target_directory, keys, exists);
    let bases = base_output_dirs(meta.target_directory, meta.base_output_directories);
    let libs = rustc_libdirs(meta.build_platforms);
    let candidates = dylib_candidates(meta, exists);
    lemma_existing_linked_dirs(meta.target_directory, keys, exists, dir);
    assert(!linked.contains(dir));
    if candidates.contains(dir) {
        let at = choose|at: int| 0 <= at < candidates.len() && candidates[at] == dir;
        if at < linked.len() {
            assert(linked[at] == dir);
        } else if at < linked.len() + bases.len() {
            assert(bases[at - linked.len()] == dir);
        } else {
            assert(libs[at - linked.len() - bases.len()] == dir);
        }
    }
    lemma_first_occurrences_from_list(candidates);
    if dylib_search_path(meta, exists).contains(dir) {
        let at = choose|at: int|
            0 <= at < dylib_search_path(meta, exists).len() && dylib_search_path(meta, exists)[at]
                == dir;
        assert(candidates.contains(dylib_search_path(meta, exists)[at]));
    }
}

} // verus!
