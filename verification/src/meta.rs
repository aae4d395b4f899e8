//! The metadata of a build, in its two phases, with its summary and the
//! search path for dynamic libraries that follows from it.

use crate::dylib::{
    base_output_dirs, existing_linked_dirs, libdirs, linked_dirs, push_base_output_dirs,
    push_existing_linked_dirs, rustc_libdirs, Diagnostic,
};
use crate::errors::{ParseErrorView, RustBuildMetaParseError};
use crate::linked_paths::{linked_keys, unrequested, LinkedPaths};
use crate::path_set::PathSet;
use crate::paths::{
    first_occurrences, join_path, lemma_first_occurrences_no_repetition, no_repetition,
    unique_paths,
};
use crate::platform::{
    host_view, platforms_outcome, platforms_summary, recognized_triple, resolved_platforms,
    BuildPlatforms, BuildPlatformsView, Platform,
};
use crate::summary::{
    clone_text, platform_triples, PlatformSummary, RustBuildMetaSummary,
    RustBuildMetaSummaryView,
};
use nextest_metadata::RustNonTestBinarySummary;
use std::collections::{BTreeMap, BTreeSet};
use vstd::prelude::*;

verus! {

/// The phase of metadata as a build gave it: its paths are those of the
/// machine that built. It is a mark without content.
#[derive(Debug, Clone, Copy, PartialEq, Eq)]
pub struct BinaryListState {
    sealed: (),
}

/// The phase of metadata whose paths were mapped to the machine that runs the
/// tests. It is a mark without content, and only
/// [`RustBuildMeta::map_paths`] makes one.
#[derive(Debug, Clone, Copy, PartialEq, Eq)]
pub struct TestListState {
    sealed: (),
}

/// Where the artifacts of a build are to be found when they are used on
/// another machine, or in another place, than the one that built them.
#[derive(Debug, PartialEq, Eq)]
pub struct PathMapper {
    new_target_dir: Option<String>,
}

impl View for PathMapper {
    type V = Option<Seq<char>>;

    /// The target directory that takes the place of the build's own, if one
    /// does.
    closed spec fn view(&self) -> Option<Seq<char>> {
        self.new_target_dir.deep_view()
    }
}

impl PathMapper {
    /// The mapper that puts `new_target_dir`, where there is one, in the place
    /// of the target directory.
    pub fn new(new_target_dir: Option<String>) -> (mapper: PathMapper)
        ensures
            mapper@ == new_target_dir.deep_view(),
    {
        PathMapper { new_target_dir }
    }

    /// The mapper that leaves every path as it is.
    pub fn noop() -> (mapper: PathMapper)
        ensures
            mapper@ is None,
    {
        PathMapper { new_target_dir: None }
    }

    /// The target directory that takes the place of the build's own, if one
    /// does.
    pub fn new_target_dir(&self) -> (dir: Option<&String>)
        ensures
            dir.deep_view() == self@,
    {
        match &self.new_target_dir {
            Some(dir) => Some(dir),
            None => None,
        }
    }
}

/// Metadata of a build, used to find and run its test binaries. `State` is
/// the phase: [`BinaryListState`] as the build gave it, [`TestListState`]
/// once its paths were mapped.
#[derive(Debug, PartialEq, Eq)]
pub struct RustBuildMeta<State> {
    /// The target directory for build artifacts.
    pub target_directory: String,
    /// The base output directories, relative to the target directory. They and
    /// their `deps` subdirectories are searched for dynamic libraries.
    pub base_output_directories: PathSet,
    /// The binaries that are not tests, by package.
    pub non_test_binaries: BTreeMap<String, BTreeSet<RustNonTestBinarySummary>>,
    /// The output directory of each package's build script, relative to the
    /// target directory.
    pub build_script_out_dirs: BTreeMap<String, String>,
    /// The linked paths, relative to the target directory, each with the
    /// packages that asked for it. They are searched for dynamic libraries.
    pub linked_paths: LinkedPaths,
    /// The host and the target of the build.
    pub build_platforms: BuildPlatforms,
    /// The mark of the phase.
    pub state: State,
}

/// [`RustBuildMeta`] as mathematical values; the phase is no part of it.
pub struct RustBuildMetaView {
    pub target_directory: Seq<char>,
    pub base_output_directories: Seq<Seq<char>>,
    pub non_test_binaries: Map<String, BTreeSet<RustNonTestBinarySummary>>,
    pub build_script_out_dirs: Map<String, String>,
    pub linked_paths: Seq<(Seq<char>, Set<Seq<char>>)>,
    pub build_platforms: BuildPlatformsView,
}

impl<State> View for RustBuildMeta<State> {
    type V = RustBuildMetaView;

    open spec fn view(&self) -> RustBuildMetaView {
        RustBuildMetaView {
            target_directory: self.target_directory@,
            base_output_directories: self.base_output_directories@,
            non_test_binaries: self.non_test_binaries@,
            build_script_out_dirs: self.build_script_out_dirs@,
            linked_paths: self.linked_paths@,
            build_platforms: self.build_platforms@,
        }
    }
}

impl RustBuildMeta<BinaryListState> {
    /// The metadata of a build in `target_directory` for `build_platforms`,
    /// with no directories and no binaries recorded yet.
    pub fn new(target_directory: String, build_platforms: BuildPlatforms) -> (meta: Self)
        ensures
            meta@ == (RustBuildMetaView {
                target_directory: target_directory@,
                base_output_directories: Seq::empty(),
                non_test_binaries: Map::empty(),
                build_script_out_dirs: Map::empty(),
                linked_paths: Seq::empty(),
                build_platforms: build_platforms@,
            }),
    {
        RustBuildMeta {
            target_directory,
            base_output_directories: PathSet::new(),
            non_test_binaries: BTreeMap::new(),
            build_script_out_dirs: BTreeMap::new(),
            linked_paths: LinkedPaths::new(),
            build_platforms,
            state: BinaryListState { sealed: () },
        }
    }

    /// Maps the paths to where `path_mapper` says the artifacts are, which
    /// moves the metadata to the phase [`TestListState`]. Only the target
    /// directory can change: every other path is relative to it.
    pub fn map_paths(&self, path_mapper: &PathMapper) -> (mapped: RustBuildMeta<TestListState>)
        ensures
            mapped@ == (RustBuildMetaView {
                target_directory: match path_mapper@ {
                    Some(dir) => dir,
                    None => self@.target_directory,
                },
                ..self@
            }),
    {
        let target_directory = match path_mapper.new_target_dir() {
            Some(dir) => dir.clone(),
            None => self.target_directory.clone(),
        };
        RustBuildMeta {
            target_directory,
            base_output_directories: self.base_output_directories.clone(),
            non_test_binaries: self.non_test_binaries.clone(),
            build_script_out_dirs: self.build_script_out_dirs.clone(),
            linked_paths: self.linked_paths.clone(),
            build_platforms: self.build_platforms.clone(),
            state: TestListState { sealed: () },
        }
    }
}

/// The directories that are candidates for the search path of `meta`, with
/// repetitions: the linked paths that exist, then the base output
/// directories, each after its `deps` subdirectory, then the directories of
/// the compiler's libraries. `exists` says of each linked path, in the order
/// of the map, whether the directory is there.
pub open spec fn dylib_candidates(meta: RustBuildMetaView, exists: Seq<bool>) -> Seq<Seq<char>> {
    existing_linked_dirs(meta.target_directory, linked_keys(meta.linked_paths), exists)
        + base_output_dirs(meta.target_directory, meta.base_output_directories) + rustc_libdirs(
        meta.build_platforms,
    )
}

/// The search path for dynamic libraries of `meta`: its candidates, each at
/// the place of its first occurrence.
pub open spec fn dylib_search_path(meta: RustBuildMetaView, exists: Seq<bool>) -> Seq<Seq<char>> {
    first_occurrences(dylib_candidates(meta, exists))
}

/// The diagnostics that the search path of `meta` comes with: one where no
/// directory of the compiler's libraries is known, else none.
pub open spec fn dylib_diagnostics(meta: RustBuildMetaView) -> Seq<Diagnostic> {
    if rustc_libdirs(meta.build_platforms).len() == 0 {
        seq![Diagnostic::LibdirNotDetected]
    } else {
        Seq::empty()
    }
}

impl RustBuildMeta<TestListState> {
    /// The linked paths, each joined to the target directory, in the order of
    /// the map: the directories of which [`Self::dylib_paths`] has to be told
    /// whether they exist.
    pub fn linked_path_candidates(&self) -> (dirs: Vec<String>)
        ensures
            dirs.deep_view() == linked_dirs(
                self@.target_directory,
                linked_keys(self@.linked_paths),
            ),
    {
        let keys = self.linked_paths.keys().to_vec();
        let ghost all = linked_dirs(self@.target_directory, keys.deep_view());
        let mut dirs: Vec<String> = Vec::new();
        let mut i: usize = 0;
        assert(dirs.deep_view() =~= all.take(0));
        while i < keys.len()
            invariant
                i <= keys.len(),
                all == linked_dirs(self@.target_directory, keys.deep_view()),
                dirs.deep_view() == all.take(i as int),
            decreases keys.len() - i,
        {
            let ghost held = dirs.deep_view();
            let dir = join_path(self.target_directory.as_str(), keys[i].as_str());
            dirs.push(dir);
            assert(dirs.deep_view() =~= held.push(dir@));
            assert(dirs.deep_view() =~= all.take(i + 1));
            i += 1;
        }
        assert(all.take(keys.len() as int) =~= all);
        dirs
    }

    /// The directories to search for dynamic libraries when a test binary of
    /// this build runs, in the order in which the build tool puts them, none
    /// of them twice. `linked_path_exists` says of each linked path, in the
    /// order of the map, whether its directory exists; a path without a flag
    /// counts as absent. Where no directory of the compiler's libraries is
    /// known, a diagnostic is added to `diagnostics`.
    pub fn dylib_paths(&self, linked_path_exists: &[bool], diagnostics: &mut Vec<Diagnostic>) -> (paths:
        Vec<String>)
        ensures
            paths.deep_view() == dylib_search_path(self@, linked_path_exists@),
            no_repetition(paths.deep_view()),
            final(diagnostics)@ == old(diagnostics)@ + dylib_diagnostics(self@),
    {
        let rustc_dirs = libdirs(&self.build_platforms);
        if rustc_dirs.len() == 0 {
            diagnostics.push(Diagnostic::LibdirNotDetected);
        }
        let linked = self.linked_paths.keys().to_vec();
        let bases = self.base_output_directories.to_vec();
        let mut candidates: Vec<String> = Vec::new();
        assert(candidates.deep_view() =~= Seq::<Seq<char>>::empty());
        push_existing_linked_dirs(
            &mut candidates,
            self.target_directory.as_str(),
            &linked,
            linked_path_exists,
        );
        push_base_output_dirs(&mut candidates, self.target_directory.as_str(), &bases);
        let ghost held = candidates.deep_view();
        let mut rustc_dirs = rustc_dirs;
        candidates.append(&mut rustc_dirs);
        proof {
            assert(candidates.deep_view() =~= held + rustc_libdirs(self@.build_platforms));
            assert(candidates.deep_view() =~= dylib_candidates(self@, linked_path_exists@));
            lemma_first_occurrences_no_repetition(candidates.deep_view());
        }
        unique_paths(&candidates)
    }
}

/// The metadata that the summary `summary` describes, or the error that it
/// gives: the platforms are resolved from the shape that the summary has them
/// in, every other field is taken as it is, and the linked paths come with no
/// package that asked for them, as a summary does not keep those.
/// `current_host` is the platform that this code was built for, if it is
/// known.
pub open spec fn meta_from_summary(
    summary: RustBuildMetaSummaryView,
    current_host: Option<Seq<char>>,
) -> Result<RustBuildMetaView, ParseErrorView> {
    match resolved_platforms(
        summary.platforms,
        summary.target_platforms,
        summary.target_platform,
        current_host,
    ) {
        Ok(build_platforms) => Ok(
            RustBuildMetaView {
                target_directory: summary.target_directory,
                base_output_directories: summary.base_output_directories,
                non_test_binaries: summary.non_test_binaries,
                build_script_out_dirs: summary.build_script_out_dirs,
                linked_paths: unrequested(summary.linked_paths),
                build_platforms,
            },
        ),
        Err(error) => Err(error),
    }
}

/// The summary of the metadata `meta`. It holds the platforms in all three
/// shapes: the structured one, and for older readers the triple of the
/// target, if there is a target, and a list of one platform, which is the
/// target or else the host.
pub open spec fn summary_of(meta: RustBuildMetaView) -> RustBuildMetaSummaryView {
    RustBuildMetaSummaryView {
        target_directory: meta.target_directory,
        base_output_directories: meta.base_output_directories,
        non_test_binaries: meta.non_test_binaries,
        build_script_out_dirs: meta.build_script_out_dirs,
        linked_paths: linked_keys(meta.linked_paths),
        platforms: Some(platforms_summary(meta.build_platforms)),
        target_platforms: seq![
            match meta.build_platforms.target {
                Some(target) => target.triple,
                None => meta.build_platforms.host,
            },
        ],
        target_platform: match meta.build_platforms.target {
            Some(target) => Some(target.triple),
            None => None,
        },
    }
}

/// What the result of reading a summary amounts to: the view of the metadata
/// or of the error.
pub open spec fn meta_outcome<State>(
    outcome: Result<RustBuildMeta<State>, RustBuildMetaParseError>,
) -> Result<RustBuildMetaView, ParseErrorView> {
    match outcome {
        Ok(meta) => Ok(meta@),
        Err(error) => Err(error@),
    }
}

impl RustBuildMeta<BinaryListState> {
    /// The metadata that `summary` describes, read on the host `current_host`:
    /// the platform that takes the place of the host where the summary names
    /// none, if it is known.
    pub fn from_summary_on_host(summary: RustBuildMetaSummary, current_host: Option<Platform>) -> (outcome:
        Result<Self, RustBuildMetaParseError>)
        ensures
            meta_outcome(outcome) == meta_from_summary(summary@, host_view(current_host)),
    {
        let ghost described = summary@;
        let RustBuildMetaSummary {
            target_directory,
            base_output_directories,
            non_test_binaries,
            build_script_out_dirs,
            linked_paths,
            platforms,
            target_platforms,
            target_platform,
        } = summary;
        let resolved = if let Some(structured) = platforms {
            BuildPlatforms::from_summary(structured)
        } else if target_platforms.len() > 0 {
            assert(platform_triples(target_platforms@)[0] == target_platforms[0]@);
            BuildPlatforms::from_legacy_target(
                Some(target_platforms[0].triple.as_str()),
                current_host,
            )
        } else {
            match &target_platform {
                Some(triple) => BuildPlatforms::from_legacy_target(
                    Some(triple.as_str()),
                    current_host,
                ),
                None => BuildPlatforms::from_legacy_target(None, current_host),
            }
        };
        assert(platforms_outcome(resolved) == resolved_platforms(
            described.platforms,
            described.target_platforms,
            described.target_platform,
            host_view(current_host),
        ));
        match resolved {
            Ok(build_platforms) => Ok(
                RustBuildMeta {
                    target_directory,
                    base_output_directories,
                    non_test_binaries,
                    build_script_out_dirs,
                    linked_paths: LinkedPaths::from_keys(&linked_paths),
                    build_platforms,
                    state: BinaryListState { sealed: () },
                },
            ),
            Err(error) => Err(error),
        }
    }

    /// The metadata that `summary` describes. Where the summary names no host,
    /// the host is the platform that this code was built for; where it does,
    /// that platform plays no part.
    pub fn from_summary(summary: RustBuildMetaSummary) -> (outcome: Result<
        Self,
        RustBuildMetaParseError,
    >)
        ensures
            exists|current_host: Option<Seq<char>>|
                meta_outcome(outcome) == #[trigger] meta_from_summary(summary@, current_host) && (
                current_host matches Some(triple) ==> recognized_triple(triple)),
            summary@.platforms is Some ==> meta_outcome(outcome) == meta_from_summary(
                summary@,
                None,
            ),
    {
        let current_host = Platform::current();
        let outcome = Self::from_summary_on_host(summary, current_host);
        assert(meta_outcome(outcome) == meta_from_summary(summary@, host_view(current_host)));
        outcome
    }

}

impl<State> RustBuildMeta<State> {
    /// The serializable form of the metadata. Read again, on whatever host, the
    /// summary gives this metadata, but for the packages that asked for the
    /// linked paths, which it does not keep.
    pub fn to_summary(&self) -> (summary: RustBuildMetaSummary)
        ensures
            summary@ == summary_of(self@),
            forall|current_host: Option<Seq<char>>| #[trigger]
                meta_from_summary(summary@, current_host) == Ok::<
                    RustBuildMetaView,
                    ParseErrorView,
                >(RustBuildMetaView {
                    linked_paths: unrequested(linked_keys(self@.linked_paths)),
                    ..self@
                }),
    {
        let mut target_platforms: Vec<PlatformSummary> = Vec::new();
        target_platforms.push(self.build_platforms.to_platform_summary());
        let summary = RustBuildMetaSummary {
            target_directory: self.target_directory.clone(),
            base_output_directories: self.base_output_directories.clone(),
            non_test_binaries: self.non_test_binaries.clone(),
            build_script_out_dirs: self.build_script_out_dirs.clone(),
            linked_paths: self.linked_paths.keys(),
            platforms: Some(self.build_platforms.to_summary()),
            target_platforms,
            target_platform: self.build_platforms.to_summary_str(),
        };
        assert(summary@.target_platforms =~= summary_of(self@).target_platforms);
        summary
    }
}

impl<State: Clone> Clone for RustBuildMeta<State> {
    fn clone(&self) -> (copy: Self)
        ensures
            copy@ == self@,
    {
        RustBuildMeta {
            target_directory: self.target_directory.clone(),
            base_output_directories: self.base_output_directories.clone(),
            non_test_binaries: self.non_test_binaries.clone(),
            build_script_out_dirs: self.build_script_out_dirs.clone(),
            linked_paths: self.linked_paths.clone(),
            build_platforms: self.build_platforms.clone(),
            state: self.state.clone(),
        }
    }
}

impl Clone for PathMapper {
    fn clone(&self) -> (copy: PathMapper)
        ensures
            copy@ == self@,
    {
        PathMapper { new_target_dir: clone_text(&self.new_target_dir) }
    }
}

} // verus!
