//! The build that materializes the sources: how it is started, and what
//! its outcome means.

use vstd::prelude::*;
use crate::error::{SourcesError, ErrorModel};

verus! {

/// The texts of `items`, each as a sequence of characters.
pub open spec fn texts(items: Seq<String>) -> Seq<Seq<char>> {
    Seq::new(items.len(), |i: int| items[i]@)
}

/// One run of the build tool, ready to be started.
#[derive(Debug, Clone, PartialEq, Eq)]
pub struct NixBuild {
    /// What is shown before the run.
    pub caption: String,
    /// The program to start.
    pub program: String,
    /// The directory to start it in.
    pub working_dir: String,
    /// Its arguments, in order.
    pub args: Vec<String>,
}

/// How a run of the build tool ended.
#[derive(Debug, Clone, PartialEq, Eq)]
pub enum BuildOutcome {
    /// The program could not be started.
    NotStarted { reason: String },
    /// The program ran and ended, with success or not, and said
    /// `diagnostics`.
    Exited { success: bool, diagnostics: String },
}

/// The caption of the build of the attribute `nix_attr` of `sources_nix`.
pub open spec fn build_caption(sources_nix: Seq<char>, nix_attr: Seq<char>) -> Seq<char> {
    "Fetching sources via "@ + sources_nix + " "@ + nix_attr
}

/// The arguments of the build of the attribute `nix_attr` of `sources_nix`
/// that leaves its output link at `link`.
pub open spec fn build_args(sources_nix: Seq<char>, nix_attr: Seq<char>, link: Seq<char>) -> Seq<
    Seq<char>,
> {
    seq!["--show-trace"@, "build"@, "-f"@, sources_nix, nix_attr, "-o"@, link]
}

/// The run of `nix` that builds the attribute `nix_attr` of the file
/// `sources_nix` in the directory `project_dir` and leaves the output link
/// at `generated_sources_symlink`.
pub fn download_and_link_out_of_tree_sources(
    project_dir: &str,
    sources_nix: &str,
    generated_sources_symlink: &str,
    nix_attr: &str,
) -> (build: NixBuild)
    ensures
        build.caption@ == build_caption(sources_nix@, nix_attr@),
        build.program@ == "nix"@,
        build.working_dir@ == project_dir@,
        texts(build.args@) == build_args(sources_nix@, nix_attr@, generated_sources_symlink@),
{
    let mut caption = "Fetching sources via ".to_owned();
    caption.append(sources_nix);
    caption.append(" ");
    caption.append(nix_attr);
    let mut args: Vec<String> = Vec::new();
    args.push("--show-trace".to_owned());
    args.push("build".to_owned());
    args.push("-f".to_owned());
    args.push(sources_nix.to_owned());
    args.push(nix_attr.to_owned());
    args.push("-o".to_owned());
    args.push(generated_sources_symlink.to_owned());
    proof {
        assert(texts(args@) =~= build_args(sources_nix@, nix_attr@, generated_sources_symlink@));
    }
    NixBuild { caption, program: "nix".to_owned(), working_dir: project_dir.to_owned(), args }
}

/// What the outcome of a build means: nothing is wrong after a run that
/// ended with success; any other run failed, with what it said or with the
/// reason for which it did not start.
pub open spec fn build_failure(outcome: BuildOutcome) -> Option<ErrorModel> {
    match outcome {
        BuildOutcome::Exited { success: true, .. } => None,
        BuildOutcome::Exited { success: false, diagnostics } => Some(
            ErrorModel::MaterializationFailed { diagnostics: diagnostics@ },
        ),
        BuildOutcome::NotStarted { reason } => Some(
            ErrorModel::MaterializationFailed { diagnostics: reason@ },
        ),
    }
}

/// Judges the outcome of the build whose output link is `link`: the link
/// after a success, the failure otherwise.
pub fn materialized(outcome: BuildOutcome, link: String) -> (made: Result<String, SourcesError>)
    ensures
        match made {
            Ok(path) => build_failure(outcome).is_none() && path@ == link@,
            Err(error) => build_failure(outcome) == Some(error@),
        },
{
    match outcome {
        BuildOutcome::Exited { success, diagnostics } => {
            if success {
                Ok(link)
            } else {
                Err(SourcesError::MaterializationFailed { diagnostics })
            }
        },
        BuildOutcome::NotStarted { reason } => Err(
            SourcesError::MaterializationFailed { diagnostics: reason },
        ),
    }
}

} // verus!
