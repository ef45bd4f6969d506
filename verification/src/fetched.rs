//! The sources of one project, known by the path of its configuration
//! file: where the generated sources file and the output link lie, when
//! the sources file may be written again, and what a fetch has to do.

use vstd::prelude::*;
use crate::discovery::{discover, manifests, warning_views, warnings, Discovery, MemberEntry};
use crate::error::{ErrorModel, SourcesError};
use crate::marker::{
    generated_text,
    has_generated_marker,
    is_generated,
    lemma_generated_text_is_generated,
    sources_nix_text,
};
use crate::materialize::{
    build_args,
    build_caption,
    download_and_link_out_of_tree_sources,
    texts,
    NixBuild,
};
use crate::paths::{join_path, parent_dir, path_join, path_parent};

verus! {

/// The out-of-tree sources of the project whose configuration file lies at
/// a given path.
#[derive(Debug, Clone, PartialEq, Eq)]
pub struct FetchedSources {
    crate2nix_json_path: String,
}

/// A file to be written: the sources file with its new content.
#[derive(Debug, Clone, PartialEq, Eq)]
pub struct SourcesFile {
    pub path: String,
    pub content: Vec<u8>,
}

/// What a fetch does, in order: write the sources file, run the build, and
/// then find the output behind the link.
#[derive(Debug, Clone, PartialEq, Eq)]
pub struct FetchPlan {
    pub sources_file: SourcesFile,
    pub build: NixBuild,
    pub link: String,
}

/// The content of the file that was found, if one was.
pub open spec fn found_content(existing: Option<&[u8]>) -> Option<Seq<u8>> {
    match existing {
        Some(content) => Some(content@),
        None => None,
    }
}

impl FetchedSources {
    /// The path of the configuration file.
    pub closed spec fn config_path(self) -> Seq<char> {
        self.crate2nix_json_path@
    }

    /// The configuration file lies in a directory: its path has a parent.
    pub open spec fn has_project_dir(self) -> bool {
        path_parent(self.config_path()).is_some()
    }

    /// The project directory: the parent of the configuration file.
    pub open spec fn project_dir_path(self) -> Seq<char>
        recommends
            self.has_project_dir(),
    {
        path_parent(self.config_path()).unwrap()
    }

    /// The sources file: `crate2nix-sources.nix` in the project directory.
    pub open spec fn sources_nix_path(self) -> Seq<char>
        recommends
            self.has_project_dir(),
    {
        path_join(self.project_dir_path(), "crate2nix-sources.nix"@)
    }

    /// The output link: `crate2nix-sources` in the project directory.
    pub open spec fn link_path(self) -> Seq<char>
        recommends
            self.has_project_dir(),
    {
        path_join(self.project_dir_path(), "crate2nix-sources"@)
    }

    /// Why the sources file may not be written, if it may not: there is no
    /// configuration file; or there is a sources file already, with the
    /// content `existing`, and it does not carry the marker.
    pub open spec fn refusal(self, config_exists: bool, existing: Option<Seq<u8>>) -> Option<
        ErrorModel,
    > {
        if !config_exists {
            Some(ErrorModel::ConfigNotFound { path: self.config_path() })
        } else if existing is Some && !is_generated(existing->0) {
            Some(ErrorModel::RefuseOverwrite)
        } else {
            None
        }
    }

    /// `outcome` is what regenerating the sources file owes: the file at
    /// its path with the generated text of `body`, or the refusal.
    pub open spec fn regenerates(
        self,
        config_exists: bool,
        existing: Option<Seq<u8>>,
        body: Seq<u8>,
        outcome: Result<SourcesFile, SourcesError>,
    ) -> bool {
        match outcome {
            Ok(file) => {
                &&& self.refusal(config_exists, existing) is None
                &&& file.path@ == self.sources_nix_path()
                &&& file.content@ == generated_text(body)
            },
            Err(error) => self.refusal(config_exists, existing) == Some(error@),
        }
    }

    /// `outcome` is what a fetch owes: the sources file as regenerated,
    /// the build of the attribute `fetchedSources` of that file in the
    /// project directory, and the output link; or the refusal.
    pub open spec fn fetches(
        self,
        config_exists: bool,
        existing: Option<Seq<u8>>,
        body: Seq<u8>,
        outcome: Result<FetchPlan, SourcesError>,
    ) -> bool {
        match outcome {
            Ok(plan) => {
                &&& self.regenerates(config_exists, existing, body, Ok(plan.sources_file))
                &&& plan.build.caption@ == build_caption(
                    self.sources_nix_path(),
                    "fetchedSources"@,
                )
                &&& plan.build.program@ == "nix"@
                &&& plan.build.working_dir@ == self.project_dir_path()
                &&& texts(plan.build.args@) == build_args(
                    self.sources_nix_path(),
                    "fetchedSources"@,
                    self.link_path(),
                )
                &&& plan.link@ == self.link_path()
            },
            Err(error) => self.refusal(config_exists, existing) == Some(error@),
        }
    }

    /// `outcome` is what the listing of the output directory gives: the
    /// manifests and warnings of its entries, or the failure to list the
    /// directory behind the output link.
    pub open spec fn lists(
        self,
        listing: Result<Vec<MemberEntry>, String>,
        outcome: Result<Discovery, SourcesError>,
    ) -> bool {
        match outcome {
            Ok(found) => {
                &&& listing matches Ok(entries)
                &&& texts(found.cargo_tomls@) == manifests(entries@)
                &&& warning_views(found.warnings@) == warnings(entries@)
            },
            Err(error) => {
                &&& listing matches Err(cause)
                &&& error@ == ErrorModel::DirectoryReadFailed {
                    path: self.link_path(),
                    cause: cause@,
                }
            },
        }
    }

    /// The sources of the project whose configuration file lies at `path`.
    pub fn new(path: String) -> (sources: FetchedSources)
        ensures
            sources.config_path() == path@,
    {
        FetchedSources { crate2nix_json_path: path }
    }

    /// The path of the configuration file.
    pub fn crate2nix_json_path(&self) -> (path: &str)
        ensures
            path@ == self.config_path(),
    {
        self.crate2nix_json_path.as_str()
    }

    /// The project directory.
    pub fn project_dir(&self) -> (dir: String)
        requires
            self.has_project_dir(),
        ensures
            dir@ == self.project_dir_path(),
    {
        parent_dir(self.crate2nix_json_path.as_str()).unwrap()
    }

    /// The project directory, or `None` where the configuration file's
    /// path has no parent.
    pub fn try_project_dir(&self) -> (dir: Option<String>)
        ensures
            match dir {
                Some(d) => self.has_project_dir() && d@ == self.project_dir_path(),
                None => !self.has_project_dir(),
            },
    {
        if parent_dir(self.crate2nix_json_path.as_str()).is_some() {
            Some(self.project_dir())
        } else {
            None
        }
    }

    /// The path of the sources file.
    pub fn sources_nix(&self) -> (path: String)
        requires
            self.has_project_dir(),
        ensures
            path@ == self.sources_nix_path(),
    {
        let dir = self.project_dir();
        join_path(dir.as_str(), "crate2nix-sources.nix")
    }

    /// The path of the output link.
    pub fn fetched_sources_symlink(&self) -> (path: String)
        requires
            self.has_project_dir(),
        ensures
            path@ == self.link_path(),
    {
        let dir = self.project_dir();
        join_path(dir.as_str(), "crate2nix-sources")
    }

    /// Decides whether the sources file may be written, and with what.
    ///
    /// `config_exists` says whether the configuration file is there,
    /// `existing` is the content of the sources file where there is one,
    /// and `body` is the rendering of the declarations. A sources file
    /// that is there without the marker is never written over; one with
    /// the marker is written anew without a look at the rest of it.
    pub fn regenerate_sources_nix(
        &self,
        config_exists: bool,
        existing: Option<&[u8]>,
        body: &[u8],
    ) -> (outcome: Result<SourcesFile, SourcesError>)
        requires
            self.has_project_dir(),
        ensures
            self.regenerates(config_exists, found_content(existing), body@, outcome),
    {
        if !config_exists {
            return Err(SourcesError::ConfigNotFound { path: self.crate2nix_json_path.clone() });
        }
        match existing {
            Some(content) => {
                if !has_generated_marker(content) {
                    return Err(SourcesError::RefuseOverwrite);
                }
            },
            None => {},
        }
        Ok(SourcesFile { path: self.sources_nix(), content: sources_nix_text(body) })
    }

    /// Plans a fetch: the sources file is regenerated, as
    /// `regenerate_sources_nix` decides from the same observations, and
    /// then built into the output link.
    pub fn fetch(&self, config_exists: bool, existing: Option<&[u8]>, body: &[u8]) -> (outcome:
        Result<FetchPlan, SourcesError>)
        requires
            self.has_project_dir(),
        ensures
            self.fetches(config_exists, found_content(existing), body@, outcome),
    {
        let sources_file = match self.regenerate_sources_nix(config_exists, existing, body) {
            Ok(file) => file,
            Err(error) => {
                return Err(error);
            },
        };
        let dir = self.project_dir();
        let link = self.fetched_sources_symlink();
        let build = download_and_link_out_of_tree_sources(
            dir.as_str(),
            sources_file.path.as_str(),
            link.as_str(),
            "fetchedSources",
        );
        Ok(FetchPlan { sources_file, build, link })
    }

    /// Plans a fetch as `fetch` does, or gives `None` where the
    /// configuration file's path has no parent.
    pub fn try_fetch(&self, config_exists: bool, existing: Option<&[u8]>, body: &[u8]) -> (outcome:
        Option<Result<FetchPlan, SourcesError>>)
        ensures
            match outcome {
                Some(planned) => self.has_project_dir() && self.fetches(
                    config_exists,
                    found_content(existing),
                    body@,
                    planned,
                ),
                None => !self.has_project_dir(),
            },
    {
        if parent_dir(self.crate2nix_json_path.as_str()).is_some() {
            Some(self.fetch(config_exists, existing, body))
        } else {
            None
        }
    }

    /// The manifests of the workspace members, from the listing of the
    /// directory behind the output link: one for each directory in it, in
    /// the listing's order, with a warning for each expected file that is
    /// missing. A listing that failed is the only error.
    pub fn get_cargo_tomls(&self, listing: Result<Vec<MemberEntry>, String>) -> (outcome: Result<
        Discovery,
        SourcesError,
    >)
        requires
            self.has_project_dir(),
        ensures
            self.lists(listing, outcome),
    {
        match listing {
            Ok(entries) => Ok(discover(entries.as_slice())),
            Err(cause) => Err(
                SourcesError::DirectoryReadFailed { path: self.fetched_sources_symlink(), cause },
            ),
        }
    }

    /// The manifests as `get_cargo_tomls` gives them, or `None` where the
    /// configuration file's path has no parent.
    pub fn try_get_cargo_tomls(&self, listing: Result<Vec<MemberEntry>, String>) -> (outcome:
        Option<Result<Discovery, SourcesError>>)
        ensures
            match outcome {
                Some(listed) => self.has_project_dir() && self.lists(listing, listed),
                None => !self.has_project_dir(),
            },
    {
        if parent_dir(self.crate2nix_json_path.as_str()).is_some() {
            Some(self.get_cargo_tomls(listing))
        } else {
            None
        }
    }
}

/// With the configuration in place, a sources file without the marker is
/// never written over, whatever else it holds. One with the marker always
/// is, what is written carries the marker again, and so it can be written
/// over in turn.
pub proof fn lemma_marker_guards_the_sources_file(
    sources: FetchedSources,
    existing: Seq<u8>,
    body: Seq<u8>,
)
    ensures
        !is_generated(existing) ==> sources.refusal(true, Some(existing)) == Some(
            ErrorModel::RefuseOverwrite,
        ),
        is_generated(existing) ==> sources.refusal(true, Some(existing)) is None,
        is_generated(generated_text(body)),
        sources.refusal(true, Some(generated_text(body))) is None,
        sources.refusal(true, None) is None,
{
    lemma_generated_text_is_generated(body);
}

} // verus!
