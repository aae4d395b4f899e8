//! The ways in which a summary can fail to describe a build.

use vstd::prelude::*;

verus! {

/// What the error for a summary with several targets says.
pub open spec fn multiple_targets_message() -> Seq<char> {
    "multiple build targets is not supported"@
}

/// An error met while a summary is turned into build metadata.
#[derive(Debug, PartialEq, Eq)]
pub enum RustBuildMetaParseError {
    /// A platform of the summary has a triple that is not that of any
    /// platform known here.
    InvalidPlatformString {
        /// The triple as the summary gave it.
        triple: String,
    },
    /// The summary names no host platform, and the platform that this code
    /// was built for could not be determined either.
    UnknownHostPlatform,
    /// The summary describes a build that cannot be represented.
    Unsupported {
        /// What is not supported.
        message: String,
    },
}

/// A [`RustBuildMetaParseError`] with its texts as sequences of characters.
pub enum ParseErrorView {
    InvalidPlatformString { triple: Seq<char> },
    UnknownHostPlatform,
    Unsupported { message: Seq<char> },
}

impl View for RustBuildMetaParseError {
    type V = ParseErrorView;

    open spec fn view(&self) -> ParseErrorView {
        match self {
            RustBuildMetaParseError::InvalidPlatformString { triple } => {
                ParseErrorView::InvalidPlatformString { triple: triple@ }
            },
            RustBuildMetaParseError::UnknownHostPlatform => ParseErrorView::UnknownHostPlatform,
            RustBuildMetaParseError::Unsupported { message } => ParseErrorView::Unsupported {
                message: message@,
            },
        }
    }
}

impl RustBuildMetaParseError {
    /// The error for a summary with more than one target.
    pub fn multiple_targets() -> (error: RustBuildMetaParseError)
        ensures
            error@ == (ParseErrorView::Unsupported { message: multiple_targets_message() }),
    {
        RustBuildMetaParseError::Unsupported {
            message: "multiple build targets is not supported".to_owned(),
        }
    }
}

impl Clone for RustBuildMetaParseError {
    fn clone(&self) -> (copy: RustBuildMetaParseError)
        ensures
            copy@ == self@,
    {
        match self {
            RustBuildMetaParseError::InvalidPlatformString { triple } => {
                RustBuildMetaParseError::InvalidPlatformString { triple: triple.clone() }
            },
            RustBuildMetaParseError::UnknownHostPlatform => {
                RustBuildMetaParseError::UnknownHostPlatform
            },
            RustBuildMetaParseError::Unsupported { message } => {
                RustBuildMetaParseError::Unsupported { message: message.clone() }
            },
        }
    }
}

} // verus!
