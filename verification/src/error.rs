//! What can go wrong, and what is only worth a warning.

use vstd::prelude::*;
use crate::source::{Source, SourceModel};

verus! {

/// A fatal condition. Each carries what a caller needs to report it.
#[derive(Debug, Clone, PartialEq, Eq)]
pub enum SourcesError {
    /// No configuration file at the expected path.
    ConfigNotFound { path: String },
    /// The sources file exists and does not carry the generated marker.
    RefuseOverwrite,
    /// Fetching the hash of `source` failed with `cause`.
    PrefetchFailed { source: Source, cause: String },
    /// The build did not start, or ended with a failure.
    MaterializationFailed { diagnostics: String },
    /// The directory at `path` could not be listed.
    DirectoryReadFailed { path: String, cause: String },
}

/// What a `SourcesError` says, with every text as a sequence of characters.
pub ghost enum ErrorModel {
    ConfigNotFound { path: Seq<char> },
    RefuseOverwrite,
    PrefetchFailed { source: SourceModel, cause: Seq<char> },
    MaterializationFailed { diagnostics: Seq<char> },
    DirectoryReadFailed { path: Seq<char>, cause: Seq<char> },
}

impl View for SourcesError {
    type V = ErrorModel;

    open spec fn view(&self) -> ErrorModel {
        match *self {
            SourcesError::ConfigNotFound { path } => ErrorModel::ConfigNotFound { path: path@ },
            SourcesError::RefuseOverwrite => ErrorModel::RefuseOverwrite,
            SourcesError::PrefetchFailed { source, cause } => ErrorModel::PrefetchFailed {
                source: source@,
                cause: cause@,
            },
            SourcesError::MaterializationFailed { diagnostics } => {
                ErrorModel::MaterializationFailed { diagnostics: diagnostics@ }
            },
            SourcesError::DirectoryReadFailed { path, cause } => ErrorModel::DirectoryReadFailed {
                path: path@,
                cause: cause@,
            },
        }
    }
}

/// Which of the two expected files a member directory lacks.
#[derive(Debug, Clone, Copy, PartialEq, Eq, Structural)]
pub enum MissingFile {
    Manifest,
    Lockfile,
}

/// A condition that is reported and does not stop the work: the member
/// directory `dir` lacks the file `missing`.
#[derive(Debug, Clone, PartialEq, Eq)]
pub struct Warning {
    pub missing: MissingFile,
    pub dir: String,
}

impl View for Warning {
    type V = (MissingFile, Seq<char>);

    open spec fn view(&self) -> (MissingFile, Seq<char>) {
        (self.missing, self.dir@)
    }
}

} // verus!
