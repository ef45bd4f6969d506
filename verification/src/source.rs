//! Source declarations and their completion with a content hash.

use vstd::prelude::*;
use crate::error::{SourcesError, ErrorModel};

verus! {

/// `semver::Version`, carried through as it is. Nothing in it is read
/// here but through `version_to_string`.
#[verifier::external_type_specification]
#[verifier::external_body]
pub struct ExVersion(semver::Version);

/// `url::Url`, carried through as it is. Nothing in it is read here but
/// through `url_to_string`.
#[verifier::external_type_specification]
#[verifier::external_body]
pub struct ExUrl(url::Url);

/// The text that `semver::Version`'s `Display` writes for `version`.
pub uninterp spec fn version_text(version: semver::Version) -> Seq<char>;

/// The serialization of `url`, which is what `url::Url::as_str` returns.
pub uninterp spec fn url_text(url: url::Url) -> Seq<char>;

/// Formats a `semver::Version` through its `Display` impl.
///
/// Trusted: the result is the version's display text, which depends on the
/// version alone.
#[verifier::external_body]
pub(crate) fn version_to_string(version: &semver::Version) -> (text: String)
    ensures
        text@ == version_text(*version),
{
    version.to_string()
}

/// Calls `url::Url::as_str`.
///
/// Trusted: the result is the URL's serialization.
#[verifier::external_body]
pub(crate) fn url_to_string(url: &url::Url) -> (text: String)
    ensures
        text@ == url_text(*url),
{
    url.as_str().to_owned()
}

/// An optional text as an optional sequence of characters.
pub open spec fn opt_text(text: Option<String>) -> Option<Seq<char>> {
    match text {
        Some(t) => Some(t@),
        None => None,
    }
}

/// `semver::Version` derives `Clone`.
///
/// Trusted: the copy is the same version.
pub assume_specification[ <semver::Version as Clone>::clone ](
    this: &semver::Version,
) -> (copy: semver::Version)
    ensures
        copy == *this,
;

/// `url::Url` derives `Clone`.
///
/// Trusted: the copy is the same URL.
pub assume_specification[ <url::Url as Clone>::clone ](this: &url::Url) -> (copy: url::Url)
    ensures
        copy == *this,
;

/// One source of the configuration.
#[derive(Debug, Clone, PartialEq, Eq)]
pub enum Source {
    /// A package of the crates registry.
    CratesIo { name: String, version: semver::Version, sha256: Option<String> },
    /// A revision of a git repository.
    Git { url: url::Url, rev: String, ref_name: Option<String>, sha256: Option<String> },
    /// A source that a nix expression resolves. It carries no hash and has
    /// to be resolved again whenever the sources are used.
    Nix { file: String, attr: Option<String> },
}

/// What a `Source` says, with every text as a sequence of characters.
pub ghost enum SourceModel {
    CratesIo { name: Seq<char>, version: semver::Version, sha256: Option<Seq<char>> },
    Git { url: url::Url, rev: Seq<char>, ref_name: Option<Seq<char>>, sha256: Option<Seq<char>> },
    Nix { file: Seq<char>, attr: Option<Seq<char>> },
}

impl View for Source {
    type V = SourceModel;

    open spec fn view(&self) -> SourceModel {
        match *self {
            Source::CratesIo { name, version, sha256 } => SourceModel::CratesIo {
                name: name@,
                version,
                sha256: opt_text(sha256),
            },
            Source::Git { url, rev, ref_name, sha256 } => SourceModel::Git {
                url,
                rev: rev@,
                ref_name: opt_text(ref_name),
                sha256: opt_text(sha256),
            },
            Source::Nix { file, attr } => SourceModel::Nix { file: file@, attr: opt_text(attr) },
        }
    }
}

impl SourceModel {
    /// The content hash that the declaration records, if any.
    pub open spec fn hash(self) -> Option<Seq<char>> {
        match self {
            SourceModel::CratesIo { sha256, .. } => sha256,
            SourceModel::Git { sha256, .. } => sha256,
            SourceModel::Nix { .. } => None,
        }
    }

    /// A declaration is complete when it records its hash or needs none.
    pub open spec fn is_complete(self) -> bool {
        self is Nix || self.hash().is_some()
    }

    /// Whether the materialized source can be trusted without resolving
    /// the declaration again.
    pub open spec fn is_reproducible(self) -> bool {
        !(self is Nix)
    }

    /// The declaration with `hash` recorded. A declaration that needs no
    /// hash stays as it is.
    pub open spec fn with_hash(self, hash: Seq<char>) -> SourceModel {
        match self {
            SourceModel::CratesIo { name, version, .. } => SourceModel::CratesIo {
                name,
                version,
                sha256: Some(hash),
            },
            SourceModel::Git { url, rev, ref_name, .. } => SourceModel::Git {
                url,
                rev,
                ref_name,
                sha256: Some(hash),
            },
            SourceModel::Nix { .. } => self,
        }
    }

    /// How the declaration is named to a person: a registry package by name
    /// and version, a repository by URL and revision, a nix source by its
    /// file and, if it has one, its attribute.
    pub open spec fn identity(self) -> Seq<char> {
        match self {
            SourceModel::CratesIo { name, version, .. } => name + " "@ + version_text(version),
            SourceModel::Git { url, rev, .. } => url_text(url) + "#"@ + rev,
            SourceModel::Nix { file, attr: Some(a) } => file + " "@ + a,
            SourceModel::Nix { file, attr: None } => file,
        }
    }

    /// What completing the declaration gives once the hash fetch has ended
    /// with `prefetched`. A complete declaration is handed back untouched,
    /// whatever the fetch said. An incomplete one gets the fetched hash, or
    /// fails with the fetch's error and the declaration it was fetched for.
    pub open spec fn completion(self, prefetched: Result<Seq<char>, Seq<char>>) -> Result<
        SourceModel,
        ErrorModel,
    > {
        if self.is_complete() {
            Ok(self)
        } else {
            match prefetched {
                Ok(hash) => Ok(self.with_hash(hash)),
                Err(cause) => Err(ErrorModel::PrefetchFailed { source: self, cause }),
            }
        }
    }
}

/// The view of a fetch's outcome.
pub open spec fn prefetched_text(prefetched: Result<String, String>) -> Result<
    Seq<char>,
    Seq<char>,
> {
    match prefetched {
        Ok(hash) => Ok(hash@),
        Err(cause) => Err(cause@),
    }
}

/// The view of a completion's outcome.
pub open spec fn completion_view(outcome: Result<Source, SourcesError>) -> Result<
    SourceModel,
    ErrorModel,
> {
    match outcome {
        Ok(source) => Ok(source@),
        Err(error) => Err(error@),
    }
}

impl Source {
    /// Whether the declaration records its hash or needs none.
    pub fn is_complete(&self) -> (complete: bool)
        ensures
            complete == self@.is_complete(),
    {
        match self {
            Source::CratesIo { sha256, .. } => sha256.is_some(),
            Source::Git { sha256, .. } => sha256.is_some(),
            Source::Nix { .. } => true,
        }
    }

    /// Whether the materialized source can be trusted without resolving
    /// the declaration again.
    pub fn is_reproducible(&self) -> (reproducible: bool)
        ensures
            reproducible == self@.is_reproducible(),
    {
        match self {
            Source::Nix { .. } => false,
            _ => true,
        }
    }

    /// The text that names the declaration in messages.
    pub fn identity(&self) -> (text: String)
        ensures
            text@ == self@.identity(),
    {
        match self {
            Source::CratesIo { name, version, .. } => {
                let mut text = name.clone();
                text.append(" ");
                let version = version_to_string(version);
                text.append(version.as_str());
                text
            },
            Source::Git { url, rev, .. } => {
                let mut text = url_to_string(url);
                text.append("#");
                text.append(rev.as_str());
                text
            },
            Source::Nix { file, attr } => {
                let mut text = file.clone();
                match attr {
                    Some(a) => {
                        text.append(" ");
                        text.append(a.as_str());
                    },
                    None => {},
                }
                text
            },
        }
    }

    /// What is shown before the hash of the declaration is fetched:
    /// `Prefetching`, the declaration's identity, and a colon.
    pub fn prefetch_caption(&self) -> (caption: String)
        ensures
            caption@ == "Prefetching "@ + self@.identity() + ": "@,
    {
        let mut caption = "Prefetching ".to_owned();
        let identity = self.identity();
        caption.append(identity.as_str());
        caption.append(": ");
        caption
    }

    /// Completes the declaration once the fetch of its hash has ended with
    /// `prefetched`: the hash on success, the fetch's own message on
    /// failure. No hash is ever made up, and none that is recorded is
    /// replaced.
    pub fn complete(self, prefetched: Result<String, String>) -> (outcome: Result<
        Source,
        SourcesError,
    >)
        ensures
            completion_view(outcome) == self@.completion(prefetched_text(prefetched)),
    {
        if self.is_complete() {
            return Ok(self);
        }
        match prefetched {
            Ok(hash) => match self {
                Source::CratesIo { name, version, .. } => Ok(
                    Source::CratesIo { name, version, sha256: Some(hash) },
                ),
                Source::Git { url, rev, ref_name, .. } => Ok(
                    Source::Git { url, rev, ref_name, sha256: Some(hash) },
                ),
                Source::Nix { file, attr } => Ok(Source::Nix { file, attr }),
            },
            Err(cause) => Err(SourcesError::PrefetchFailed { source: self, cause }),
        }
    }
}

/// The registry package `name` in version `version`, before its hash is
/// known.
pub open spec fn unhashed_crates_io(name: Seq<char>, version: semver::Version) -> SourceModel {
    SourceModel::CratesIo { name, version, sha256: None }
}

/// The revision `rev` of the repository at `url`, before its hash is known.
pub open spec fn unhashed_git(url: url::Url, rev: Seq<char>) -> SourceModel {
    SourceModel::Git { url, rev, ref_name: None, sha256: None }
}

/// The declaration of the registry package `name` in version `version`,
/// completed with the outcome `prefetched` of fetching its hash.
pub fn crates_io_source(name: String, version: semver::Version, prefetched: Result<
    String,
    String,
>) -> (outcome: Result<Source, SourcesError>)
    ensures
        completion_view(outcome) == unhashed_crates_io(name@, version).completion(
            prefetched_text(prefetched),
        ),
{
    let unhashed = Source::CratesIo { name, version, sha256: None };
    unhashed.complete(prefetched)
}

/// The declaration of the revision `rev` of the repository at `url`,
/// completed with the outcome `prefetched` of fetching its hash.
pub fn git_io_source(url: url::Url, rev: String, prefetched: Result<String, String>) -> (outcome:
    Result<Source, SourcesError>)
    ensures
        completion_view(outcome) == unhashed_git(url, rev@).completion(
            prefetched_text(prefetched),
        ),
{
    let unhashed = Source::Git { url, rev, ref_name: None, sha256: None };
    unhashed.complete(prefetched)
}

/// A completed declaration records exactly the hash that was fetched, so
/// two completions of one incomplete declaration with the same fetched hash
/// record the same hash; and completing once more, whatever is fetched then,
/// changes nothing.
pub proof fn lemma_completion_idempotent(
    source: SourceModel,
    hash: Seq<char>,
    later: Result<Seq<char>, Seq<char>>,
)
    requires
        !source.is_complete(),
    ensures
        source.completion(Ok(hash)) == Ok::<SourceModel, ErrorModel>(source.with_hash(hash)),
        source.with_hash(hash).hash() == Some(hash),
        source.with_hash(hash).is_complete(),
        source.with_hash(hash).completion(later) == Ok::<SourceModel, ErrorModel>(
            source.with_hash(hash),
        ),
{
}

} // verus!
