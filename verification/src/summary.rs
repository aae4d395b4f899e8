//! The serializable summary of build metadata, with the platforms in each of
//! the three shapes in which summaries have carried them.

use crate::path_set::PathSet;
use nextest_metadata::RustNonTestBinarySummary;
use std::collections::{BTreeMap, BTreeSet};
use vstd::prelude::*;

verus! {

/// `nextest_metadata::RustNonTestBinarySummary`, the description of a binary
/// that is not a test. It is carried through unread.
#[verifier::external_type_specification]
#[verifier::external_body]
pub struct ExRustNonTestBinarySummary(nextest_metadata::RustNonTestBinarySummary);

/// A copy of an optional text.
pub fn clone_text(text: &Option<String>) -> (copy: Option<String>)
    ensures
        copy.deep_view() == text.deep_view(),
{
    match text {
        Some(t) => Some(t.clone()),
        None => None,
    }
}

/// A platform with the directory of its libraries: the triple that names it,
/// and the directory if it is known.
pub struct PlatformDescriptor {
    pub triple: Seq<char>,
    pub libdir: Option<Seq<char>>,
}

/// A platform as a summary names it: by its triple.
#[derive(Debug, PartialEq, Eq)]
pub struct PlatformSummary {
    /// The triple of the platform.
    pub triple: String,
}

impl View for PlatformSummary {
    type V = Seq<char>;

    open spec fn view(&self) -> Seq<char> {
        self.triple@
    }
}

impl PlatformSummary {
    /// The summary of the platform with the triple `triple`.
    pub fn new(triple: &str) -> (summary: PlatformSummary)
        ensures
            summary@ == triple@,
    {
        PlatformSummary { triple: triple.to_owned() }
    }
}

impl Clone for PlatformSummary {
    fn clone(&self) -> (copy: PlatformSummary)
        ensures
            copy@ == self@,
    {
        PlatformSummary { triple: self.triple.clone() }
    }
}

/// The host platform in a summary.
#[derive(Debug, PartialEq, Eq)]
pub struct HostPlatformSummary {
    /// The platform on which the build ran.
    pub platform: PlatformSummary,
    /// The directory of the compiler's libraries for it, if it was found.
    pub libdir: Option<String>,
}

impl View for HostPlatformSummary {
    type V = PlatformDescriptor;

    open spec fn view(&self) -> PlatformDescriptor {
        PlatformDescriptor { triple: self.platform@, libdir: self.libdir.deep_view() }
    }
}

impl Clone for HostPlatformSummary {
    fn clone(&self) -> (copy: HostPlatformSummary)
        ensures
            copy@ == self@,
    {
        HostPlatformSummary { platform: self.platform.clone(), libdir: clone_text(&self.libdir) }
    }
}

/// A target platform in a summary.
#[derive(Debug, PartialEq, Eq)]
pub struct TargetPlatformSummary {
    /// The platform that was built for.
    pub platform: PlatformSummary,
    /// The directory of the compiler's libraries for it, if it was found.
    pub libdir: Option<String>,
}

impl View for TargetPlatformSummary {
    type V = PlatformDescriptor;

    open spec fn view(&self) -> PlatformDescriptor {
        PlatformDescriptor { triple: self.platform@, libdir: self.libdir.deep_view() }
    }
}

impl Clone for TargetPlatformSummary {
    fn clone(&self) -> (copy: TargetPlatformSummary)
        ensures
            copy@ == self@,
    {
        TargetPlatformSummary { platform: self.platform.clone(), libdir: clone_text(&self.libdir) }
    }
}

/// The views of the target platforms `targets`, in their order.
pub open spec fn target_views(targets: Seq<TargetPlatformSummary>) -> Seq<PlatformDescriptor> {
    targets.map_values(|target: TargetPlatformSummary| target@)
}

/// The triples of the platforms `platforms`, in their order.
pub open spec fn platform_triples(platforms: Seq<PlatformSummary>) -> Seq<Seq<char>> {
    platforms.map_values(|platform: PlatformSummary| platform@)
}

/// The platforms of a build in the structured shape: the host, and the
/// targets, of which a build that can be represented has at most one.
#[derive(Debug, PartialEq, Eq)]
pub struct BuildPlatformsSummary {
    /// The host platform.
    pub host: HostPlatformSummary,
    /// The target platforms.
    pub targets: Vec<TargetPlatformSummary>,
}

/// A [`BuildPlatformsSummary`] as mathematical values.
pub struct BuildPlatformsSummaryView {
    pub host: PlatformDescriptor,
    pub targets: Seq<PlatformDescriptor>,
}

impl View for BuildPlatformsSummary {
    type V = BuildPlatformsSummaryView;

    open spec fn view(&self) -> BuildPlatformsSummaryView {
        BuildPlatformsSummaryView { host: self.host@, targets: target_views(self.targets@) }
    }
}

/// The view of an optional [`BuildPlatformsSummary`].
pub open spec fn platforms_view(platforms: Option<BuildPlatformsSummary>) -> Option<
    BuildPlatformsSummaryView,
> {
    match platforms {
        Some(p) => Some(p@),
        None => None,
    }
}

/// The serializable form of build metadata. Of the three fields for
/// platforms, `platforms` is the structured shape, `target_platforms` an older
/// one and `target_platform` the oldest.
#[derive(Debug, PartialEq, Eq)]
pub struct RustBuildMetaSummary {
    /// The target directory for build artifacts.
    pub target_directory: String,
    /// The base output directories, relative to the target directory.
    pub base_output_directories: PathSet,
    /// The binaries that are not tests, by package.
    pub non_test_binaries: BTreeMap<String, BTreeSet<RustNonTestBinarySummary>>,
    /// The output directory of each package's build script, relative to the
    /// target directory.
    pub build_script_out_dirs: BTreeMap<String, String>,
    /// The linked paths, relative to the target directory.
    pub linked_paths: PathSet,
    /// The structured platforms, where the summary has them.
    pub platforms: Option<BuildPlatformsSummary>,
    /// The target platforms in the older shape, of which only the first
    /// counts.
    pub target_platforms: Vec<PlatformSummary>,
    /// The triple of the target platform in the oldest shape.
    pub target_platform: Option<String>,
}

/// A [`RustBuildMetaSummary`] as mathematical values.
pub struct RustBuildMetaSummaryView {
    pub target_directory: Seq<char>,
    pub base_output_directories: Seq<Seq<char>>,
    pub non_test_binaries: Map<String, BTreeSet<RustNonTestBinarySummary>>,
    pub build_script_out_dirs: Map<String, String>,
    pub linked_paths: Seq<Seq<char>>,
    pub platforms: Option<BuildPlatformsSummaryView>,
    pub target_platforms: Seq<Seq<char>>,
    pub target_platform: Option<Seq<char>>,
}

impl View for RustBuildMetaSummary {
    type V = RustBuildMetaSummaryView;

    open spec fn view(&self) -> RustBuildMetaSummaryView {
        RustBuildMetaSummaryView {
            target_directory: self.target_directory@,
            base_output_directories: self.base_output_directories@,
            non_test_binaries: self.non_test_binaries@,
            build_script_out_dirs: self.build_script_out_dirs@,
            linked_paths: self.linked_paths@,
            platforms: platforms_view(self.platforms),
            target_platforms: platform_triples(self.target_platforms@),
            target_platform: self.target_platform.deep_view(),
        }
    }
}

impl Default for RustBuildMetaSummary {
    /// The summary with an empty target directory and nothing else in it: no
    /// directories, no binaries and no platforms in any shape.
    fn default() -> (summary: RustBuildMetaSummary)
        ensures
            summary@ == (RustBuildMetaSummaryView {
                target_directory: Seq::empty(),
                base_output_directories: Seq::empty(),
                non_test_binaries: Map::empty(),
                build_script_out_dirs: Map::empty(),
                linked_paths: Seq::empty(),
                platforms: None,
                target_platforms: Seq::empty(),
                target_platform: None,
            }),
    {
        let summary = RustBuildMetaSummary {
            target_directory: String::new(),
            base_output_directories: PathSet::new(),
            non_test_binaries: BTreeMap::new(),
            build_script_out_dirs: BTreeMap::new(),
            linked_paths: PathSet::new(),
            platforms: None,
            target_platforms: Vec::new(),
            target_platform: None,
        };
        assert(summary@.target_platforms =~= Seq::empty());
        summary
    }
}

impl Clone for BuildPlatformsSummary {
    fn clone(&self) -> (copy: BuildPlatformsSummary)
        ensures
            copy@ == self@,
    {
        let mut targets: Vec<TargetPlatformSummary> = Vec::new();
        let mut i: usize = 0;
        while i < self.targets.len()
            invariant
                i <= self.targets.len(),
                target_views(targets@) == target_views(self.targets@).take(i as int),
            decreases self.targets.len() - i,
        {
            let ghost copied = target_views(targets@);
            targets.push(self.targets[i].clone());
            assert(target_views(targets@) =~= copied.push(self.targets[i as int]@));
            assert(target_views(targets@) =~= target_views(self.targets@).take(i + 1));
            i += 1;
        }
        assert(target_views(self.targets@).take(self.targets.len() as int) =~= target_views(
            self.targets@,
        ));
        BuildPlatformsSummary { host: self.host.clone(), targets }
    }
}

impl Clone for RustBuildMetaSummary {
    fn clone(&self) -> (copy: RustBuildMetaSummary)
        ensures
            copy@ == self@,
    {
        let mut target_platforms: Vec<PlatformSummary> = Vec::new();
        let mut i: usize = 0;
        while i < self.target_platforms.len()
            invariant
                i <= self.target_platforms.len(),
                platform_triples(target_platforms@) == platform_triples(
                    self.target_platforms@,
                ).take(i as int),
            decreases self.target_platforms.len() - i,
        {
            let ghost copied = platform_triples(target_platforms@);
            target_platforms.push(self.target_platforms[i].clone());
            assert(platform_triples(target_platforms@) =~= copied.push(
                self.target_platforms[i as int]@,
            ));
            assert(platform_triples(target_platforms@) =~= platform_triples(
                self.target_platforms@,
            ).take(i + 1));
            i += 1;
        }
        assert(platform_triples(self.target_platforms@).take(self.target_platforms.len() as int)
            =~= platform_triples(self.target_platforms@));
        RustBuildMetaSummary {
            target_directory: self.target_directory.clone(),
            base_output_directories: self.base_output_directories.clone(),
            non_test_binaries: self.non_test_binaries.clone(),
            build_script_out_dirs: self.build_script_out_dirs.clone(),
            linked_paths: self.linked_paths.clone(),
            platforms: match &self.platforms {
                Some(platforms) => Some(platforms.clone()),
                None => None,
            },
            target_platforms,
            target_platform: clone_text(&self.target_platform),
        }
    }
}

} // verus!
