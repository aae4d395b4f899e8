//! The platforms of a build: the host on which it ran and the target it was
//! for, and how they are read from and written to a summary.

use crate::errors::{multiple_targets_message, ParseErrorView, RustBuildMetaParseError};
use crate::summary::{
    clone_text, BuildPlatformsSummary, BuildPlatformsSummaryView, HostPlatformSummary,
    PlatformDescriptor, PlatformSummary, TargetPlatformSummary,
};
use vstd::prelude::*;

verus! {

/// `target_spec::Error`, the error of `target-spec`.
#[verifier::external_type_specification]
#[verifier::external_body]
pub struct ExError(target_spec::Error);

/// Whether `target_spec::Platform::new` accepts the triple `triple`, with
/// target features left unknown: the triple is in its table of builtin
/// platforms, or can be parsed as a triple in general.
pub uninterp spec fn recognized_triple(triple: Seq<char>) -> bool;

/// Calls `target_spec::Platform::new` on `triple`, with target features left
/// unknown, and hands out the triple of the platform that it made. Trusted:
/// whether the call succeeds is a function of the triple alone, and the
/// platform that it makes has the triple that it was given.
#[verifier::external_body]
fn lookup_triple(triple: &str) -> (found: Result<String, target_spec::Error>)
    ensures
        found is Ok <==> recognized_triple(triple@),
        found matches Ok(known) ==> known@ == triple@,
{
    match target_spec::Platform::new(triple.to_owned(), target_spec::TargetFeatures::Unknown) {
        Ok(platform) => Ok(platform.triple_str().to_owned()),
        Err(error) => Err(error),
    }
}

/// Calls `target_spec::Platform::build_target`, which looks up the triple that
/// this code was built for, and hands out the triple of what it found.
/// Nothing is claimed of the outcome: it depends on the platform that the code
/// was built for.
#[verifier::external_body]
fn build_target_triple() -> (found: Result<String, target_spec::Error>) {
    match target_spec::Platform::build_target() {
        Ok(platform) => Ok(platform.triple_str().to_owned()),
        Err(error) => Err(error),
    }
}

/// A platform whose triple was recognized.
#[derive(Debug, PartialEq, Eq)]
pub struct Platform {
    triple: String,
}

impl View for Platform {
    type V = Seq<char>;

    /// The triple of the platform.
    closed spec fn view(&self) -> Seq<char> {
        self.triple@
    }
}

impl Platform {
    #[verifier::type_invariant]
    spec fn recognized(&self) -> bool {
        recognized_triple(self.triple@)
    }

    /// The platform with the triple `triple`, or the error that says that the
    /// triple is not recognized.
    pub fn parse(triple: &str) -> (parsed: Result<Platform, RustBuildMetaParseError>)
        ensures
            match parsed {
                Ok(platform) => recognized_triple(triple@) && platform@ == triple@,
                Err(error) => !recognized_triple(triple@) && error@
                    == (ParseErrorView::InvalidPlatformString { triple: triple@ }),
            },
    {
        match lookup_triple(triple) {
            Ok(known) => Ok(Platform { triple: known }),
            Err(_) => Err(RustBuildMetaParseError::InvalidPlatformString { triple: triple.to_owned() }),
        }
    }

    /// The platform that this code was built for, if it can be determined.
    pub fn current() -> (detected: Option<Platform>)
        ensures
            detected matches Some(platform) ==> recognized_triple(platform@),
    {
        Platform::from_build_target(build_target_triple())
    }

    /// The platform for what the lookup of the build target gave: the
    /// platform with the triple that was found, where that triple is a
    /// recognized one, and none where the lookup failed or found a triple that
    /// is not.
    pub fn from_build_target(found: Result<String, target_spec::Error>) -> (detected: Option<
        Platform,
    >)
        ensures
            match found {
                Ok(triple) => match detected {
                    Some(platform) => recognized_triple(triple@) && platform@ == triple@,
                    None => !recognized_triple(triple@),
                },
                Err(_) => detected is None,
            },
    {
        match found {
            Ok(triple) => match Platform::parse(triple.as_str()) {
                Ok(platform) => Some(platform),
                Err(_) => None,
            },
            Err(_) => None,
        }
    }

    /// The triple of the platform, which is a recognized one.
    pub fn triple_str(&self) -> (triple: &str)
        ensures
            triple@ == self@,
            recognized_triple(self@),
    {
        proof {
            use_type_invariant(self);
        }
        self.triple.as_str()
    }

    /// The platform as a summary names it: by its triple, which is a
    /// recognized one.
    pub fn to_summary(&self) -> (summary: PlatformSummary)
        ensures
            summary@ == self@,
            recognized_triple(summary@),
    {
        proof {
            use_type_invariant(self);
        }
        PlatformSummary { triple: self.triple.clone() }
    }
}

impl Clone for Platform {
    fn clone(&self) -> (copy: Platform)
        ensures
            copy@ == self@,
    {
        proof {
            use_type_invariant(self);
        }
        Platform { triple: self.triple.clone() }
    }
}

/// The target platform of a build, with the directory of the compiler's
/// libraries for it.
#[derive(Debug, PartialEq, Eq)]
pub struct BuildPlatformsTarget {
    /// The platform that was built for.
    pub triple: Platform,
    /// The directory of the compiler's libraries for it, if it is known.
    pub libdir: Option<String>,
}

impl View for BuildPlatformsTarget {
    type V = PlatformDescriptor;

    open spec fn view(&self) -> PlatformDescriptor {
        PlatformDescriptor { triple: self.triple@, libdir: self.libdir.deep_view() }
    }
}

impl BuildPlatformsTarget {
    /// The target `triple`, with no directory of libraries known.
    pub fn new(triple: Platform) -> (target: BuildPlatformsTarget)
        ensures
            target@ == (PlatformDescriptor { triple: triple@, libdir: None }),
    {
        BuildPlatformsTarget { triple, libdir: None }
    }

    /// The target that `summary` describes, or the error that says that its
    /// triple is not recognized.
    pub fn from_summary(summary: TargetPlatformSummary) -> (parsed: Result<
        BuildPlatformsTarget,
        RustBuildMetaParseError,
    >)
        ensures
            match parsed {
                Ok(target) => recognized_triple(summary@.triple) && target@ == summary@,
                Err(error) => !recognized_triple(summary@.triple) && error@
                    == (ParseErrorView::InvalidPlatformString { triple: summary@.triple }),
            },
    {
        match Platform::parse(summary.platform.triple.as_str()) {
            Ok(triple) => Ok(BuildPlatformsTarget { triple, libdir: summary.libdir }),
            Err(error) => Err(error),
        }
    }

    /// The target as a summary describes it, with its recognized triple.
    pub fn to_summary(&self) -> (summary: TargetPlatformSummary)
        ensures
            summary@ == self@,
            recognized_triple(summary@.triple),
    {
        TargetPlatformSummary {
            platform: self.triple.to_summary(),
            libdir: clone_text(&self.libdir),
        }
    }
}

impl Clone for BuildPlatformsTarget {
    fn clone(&self) -> (copy: BuildPlatformsTarget)
        ensures
            copy@ == self@,
    {
        BuildPlatformsTarget { triple: self.triple.clone(), libdir: clone_text(&self.libdir) }
    }
}

/// The platforms of a build: the host, and the target where the build was
/// for another platform than the host. There is room for one target only.
#[derive(Debug, PartialEq, Eq)]
pub struct BuildPlatforms {
    /// The platform on which the build ran.
    pub host: Platform,
    /// The directory of the compiler's libraries for the host, if it is
    /// known.
    pub host_libdir: Option<String>,
    /// The platform that was built for, if the build named one.
    pub target: Option<BuildPlatformsTarget>,
}

/// [`BuildPlatforms`] as mathematical values.
pub struct BuildPlatformsView {
    pub host: Seq<char>,
    pub host_libdir: Option<Seq<char>>,
    pub target: Option<PlatformDescriptor>,
}

/// The view of an optional target.
pub open spec fn target_view(target: Option<BuildPlatformsTarget>) -> Option<PlatformDescriptor> {
    match target {
        Some(t) => Some(t@),
        None => None,
    }
}

impl View for BuildPlatforms {
    type V = BuildPlatformsView;

    open spec fn view(&self) -> BuildPlatformsView {
        BuildPlatformsView {
            host: self.host@,
            host_libdir: self.host_libdir.deep_view(),
            target: target_view(self.target),
        }
    }
}

/// The platforms that a summary in the structured shape describes. More than
/// one target is not supported, whatever else the summary holds; then the
/// triples of the host and of the target have to be recognized, the host's
/// first.
pub open spec fn structured_platforms(platforms: BuildPlatformsSummaryView) -> Result<
    BuildPlatformsView,
    ParseErrorView,
> {
    if platforms.targets.len() > 1 {
        Err(ParseErrorView::Unsupported { message: multiple_targets_message() })
    } else if !recognized_triple(platforms.host.triple) {
        Err(ParseErrorView::InvalidPlatformString { triple: platforms.host.triple })
    } else if platforms.targets.len() == 1 && !recognized_triple(platforms.targets[0].triple) {
        Err(ParseErrorView::InvalidPlatformString { triple: platforms.targets[0].triple })
    } else {
        Ok(
            BuildPlatformsView {
                host: platforms.host.triple,
                host_libdir: platforms.host.libdir,
                target: if platforms.targets.len() == 1 {
                    Some(platforms.targets[0])
                } else {
                    None
                },
            },
        )
    }
}

/// The platforms of a summary that names at most the triple of its target.
/// The triple has to be recognized; the host is then the platform that this
/// code was built for, `current_host`, which has to be known; no directory of
/// libraries is.
pub open spec fn legacy_platforms(
    target: Option<Seq<char>>,
    current_host: Option<Seq<char>>,
) -> Result<BuildPlatformsView, ParseErrorView> {
    if target is Some && !recognized_triple(target->0) {
        Err(ParseErrorView::InvalidPlatformString { triple: target->0 })
    } else if current_host is None {
        Err(ParseErrorView::UnknownHostPlatform)
    } else {
        Ok(
            BuildPlatformsView {
                host: current_host->0,
                host_libdir: None,
                target: match target {
                    Some(triple) => Some(PlatformDescriptor { triple, libdir: None }),
                    None => None,
                },
            },
        )
    }
}

/// The triple of the target that the two older shapes of a summary name: the
/// first of `target_platforms` where there is one, else `target_platform`.
pub open spec fn legacy_target(
    target_platforms: Seq<Seq<char>>,
    target_platform: Option<Seq<char>>,
) -> Option<Seq<char>> {
    if target_platforms.len() > 0 {
        Some(target_platforms[0])
    } else {
        target_platform
    }
}

/// The platforms of a summary that holds them in the shapes given: the
/// structured shape decides where it is present, then the list of target
/// platforms, then the single triple; `current_host` is the platform that
/// this code was built for, if it is known.
pub open spec fn resolved_platforms(
    platforms: Option<BuildPlatformsSummaryView>,
    target_platforms: Seq<Seq<char>>,
    target_platform: Option<Seq<char>>,
    current_host: Option<Seq<char>>,
) -> Result<BuildPlatformsView, ParseErrorView> {
    match platforms {
        Some(structured) => structured_platforms(structured),
        None => legacy_platforms(legacy_target(target_platforms, target_platform), current_host),
    }
}

/// What the result of reading platforms amounts to: the views of the
/// platforms or of the error.
pub open spec fn platforms_outcome(
    outcome: Result<BuildPlatforms, RustBuildMetaParseError>,
) -> Result<BuildPlatformsView, ParseErrorView> {
    match outcome {
        Ok(platforms) => Ok(platforms@),
        Err(error) => Err(error@),
    }
}

/// The view of an optional platform.
pub open spec fn host_view(host: Option<Platform>) -> Option<Seq<char>> {
    match host {
        Some(platform) => Some(platform@),
        None => None,
    }
}

impl BuildPlatforms {
    /// The platforms of a build on the platform that this code was built for,
    /// with no target. Fails where that platform cannot be determined.
    pub fn new() -> (platforms: Result<BuildPlatforms, RustBuildMetaParseError>)
        ensures
            match platforms {
                Ok(p) => p@.host_libdir is None && p@.target is None && recognized_triple(
                    p@.host,
                ),
                Err(error) => error@ == ParseErrorView::UnknownHostPlatform,
            },
    {
        match Platform::current() {
            Some(host) => Ok(BuildPlatforms { host, host_libdir: None, target: None }),
            None => Err(RustBuildMetaParseError::UnknownHostPlatform),
        }
    }

    /// The platforms that a summary in the structured shape describes.
    pub fn from_summary(summary: BuildPlatformsSummary) -> (outcome: Result<
        BuildPlatforms,
        RustBuildMetaParseError,
    >)
        ensures
            platforms_outcome(outcome) == structured_platforms(summary@),
    {
        let BuildPlatformsSummary { host, targets } = summary;
        let mut targets = targets;
        if targets.len() > 1 {
            return Err(RustBuildMetaParseError::multiple_targets());
        }
        let host_platform = match Platform::parse(host.platform.triple.as_str()) {
            Ok(platform) => platform,
            Err(error) => {
                return Err(error);
            },
        };
        let target = match targets.pop() {
            Some(summary) => match BuildPlatformsTarget::from_summary(summary) {
                Ok(target) => Some(target),
                Err(error) => {
                    return Err(error);
                },
            },
            None => None,
        };
        Ok(BuildPlatforms { host: host_platform, host_libdir: host.libdir, target })
    }

    /// The platforms of a summary that names at most the triple of its
    /// target, on the host `current_host`.
    pub fn from_legacy_target(target: Option<&str>, current_host: Option<Platform>) -> (outcome:
        Result<BuildPlatforms, RustBuildMetaParseError>)
        ensures
            platforms_outcome(outcome) == legacy_platforms(
                target.deep_view(),
                host_view(current_host),
            ),
    {
        let target = match target {
            Some(triple) => match Platform::parse(triple) {
                Ok(platform) => Some(BuildPlatformsTarget::new(platform)),
                Err(error) => {
                    return Err(error);
                },
            },
            None => None,
        };
        match current_host {
            Some(host) => Ok(BuildPlatforms { host, host_libdir: None, target }),
            None => Err(RustBuildMetaParseError::UnknownHostPlatform),
        }
    }

    /// The platforms of a summary that names at most the triple of its
    /// target. The host is the platform that this code was built for.
    pub fn from_summary_str(summary: Option<String>) -> (outcome: Result<
        BuildPlatforms,
        RustBuildMetaParseError,
    >)
        ensures
            exists|current_host: Option<Seq<char>>|
                platforms_outcome(outcome) == #[trigger] legacy_platforms(
                    summary.deep_view(),
                    current_host,
                ),
    {
        let current_host = Platform::current();
        let outcome = match &summary {
            Some(triple) => BuildPlatforms::from_legacy_target(Some(triple.as_str()), current_host),
            None => BuildPlatforms::from_legacy_target(None, current_host),
        };
        assert(platforms_outcome(outcome) == legacy_platforms(
            summary.deep_view(),
            host_view(current_host),
        ));
        outcome
    }

    /// The triple of the target, for the oldest field of a summary.
    pub fn to_summary_str(&self) -> (triple: Option<String>)
        ensures
            triple.deep_view() == match self@.target {
                Some(target) => Some(target.triple),
                None => None,
            },
    {
        match &self.target {
            Some(target) => Some(target.triple.triple_str().to_owned()),
            None => None,
        }
    }

    /// The platform that the build was for, for the older list of a summary:
    /// the target where there is one, else the host.
    pub fn to_platform_summary(&self) -> (summary: PlatformSummary)
        ensures
            summary@ == match self@.target {
                Some(target) => target.triple,
                None => self@.host,
            },
            recognized_triple(summary@),
    {
        match &self.target {
            Some(target) => target.triple.to_summary(),
            None => self.host.to_summary(),
        }
    }

    /// The host as a summary describes it, with its recognized triple.
    pub fn to_host_summary(&self) -> (summary: HostPlatformSummary)
        ensures
            summary@ == (PlatformDescriptor { triple: self@.host, libdir: self@.host_libdir }),
            recognized_triple(summary@.triple),
    {
        HostPlatformSummary {
            platform: self.host.to_summary(),
            libdir: clone_text(&self.host_libdir),
        }
    }

    /// The platforms in the structured shape of a summary. Read again, the
    /// summary gives these platforms.
    pub fn to_summary(&self) -> (summary: BuildPlatformsSummary)
        ensures
            summary@ == platforms_summary(self@),
            structured_platforms(summary@) == Ok::<BuildPlatformsView, ParseErrorView>(self@),
    {
        let mut targets: Vec<TargetPlatformSummary> = Vec::new();
        match &self.target {
            Some(target) => {
                targets.push(target.to_summary());
            },
            None => {},
        }
        let summary = BuildPlatformsSummary { host: self.to_host_summary(), targets };
        assert(summary@.targets =~= platforms_summary(self@).targets);
        summary
    }
}

/// The structured shape of the platforms `platforms`: the host with its
/// directory, and the target, if there is one, with its own.
pub open spec fn platforms_summary(platforms: BuildPlatformsView) -> BuildPlatformsSummaryView {
    BuildPlatformsSummaryView {
        host: PlatformDescriptor { triple: platforms.host, libdir: platforms.host_libdir },
        targets: match platforms.target {
            Some(target) => seq![target],
            None => Seq::empty(),
        },
    }
}

impl Clone for BuildPlatforms {
    fn clone(&self) -> (copy: BuildPlatforms)
        ensures
            copy@ == self@,
    {
        BuildPlatforms {
            host: self.host.clone(),
            host_libdir: clone_text(&self.host_libdir),
            target: match &self.target {
                Some(target) => Some(target.clone()),
                None => None,
            },
        }
    }
}

} // verus!
