//! Build-output metadata for a test runner: where compiled test binaries
//! live, which platforms they were built for, and which directories the
//! dynamic linker has to search when one of them is run.

pub mod dylib;
pub mod errors;
pub mod laws;
pub mod linked_paths;
pub mod meta;
pub mod path_set;
pub mod paths;
pub mod platform;
pub mod summary;

pub use dylib::Diagnostic;
pub use errors::RustBuildMetaParseError;
pub use linked_paths::LinkedPaths;
pub use meta::{BinaryListState, PathMapper, RustBuildMeta, TestListState};
pub use path_set::PathSet;
pub use platform::{BuildPlatforms, BuildPlatformsTarget, Platform};
pub use summary::{
    BuildPlatformsSummary, HostPlatformSummary, PlatformSummary, RustBuildMetaSummary,
    TargetPlatformSummary,
};
