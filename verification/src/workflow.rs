//! The discovery of the workspace members as a sequence of steps. The
//! caller does what a step asks for, and comes back with what it saw.

use vstd::prelude::*;
use crate::discovery::{Discovery, MemberEntry};
use crate::error::SourcesError;
use crate::fetched::{FetchPlan, FetchedSources};
use crate::materialize::{build_failure, materialized, BuildOutcome};
use crate::source::Source;
use crate::staleness::{is_stale, needs_fetch};

verus! {

/// Where the discovery stands.
#[derive(Debug, Clone, Copy, PartialEq, Eq, Structural)]
pub enum Phase {
    /// Nothing has been looked at yet.
    Start,
    /// The sources are stale, and the files they are regenerated from are
    /// being looked at.
    Regenerating,
    /// The sources file is being written and built.
    Building,
    /// The output directory is being listed.
    Listing,
    /// The discovery has ended, with the manifests or with a failure.
    Done,
}

/// What the caller saw when it did what the last step asked for.
#[derive(Debug, PartialEq, Eq)]
pub enum Event {
    /// The declarations of the configuration, the modification times of
    /// the output link and of the configuration file, and the time now.
    Times {
        sources: Vec<Source>,
        link_modified: Option<i128>,
        config_modified: Option<i128>,
        now: i128,
    },
    /// Whether the configuration file is there, the content of the sources
    /// file where there is one, and the rendering of the declarations.
    Files { config_exists: bool, existing: Option<Vec<u8>>, body: Vec<u8> },
    /// How the build ended.
    Built { outcome: BuildOutcome },
    /// The entries of the output directory, or why it could not be listed.
    Listed { listing: Result<Vec<MemberEntry>, String> },
}

/// What the caller has to do next.
#[derive(Debug, Clone, PartialEq, Eq)]
pub enum Action {
    /// Look at the configuration file and the sources file, render the
    /// declarations, and come back with `Event::Files`.
    ReadFiles,
    /// Write the sources file, run the build, and come back with
    /// `Event::Built`.
    WriteAndBuild(FetchPlan),
    /// List the directory `dir`, and come back with `Event::Listed`.
    List { dir: String },
    /// Hand out the manifests and report the warnings.
    Return(Discovery),
    /// Give up with the error.
    Fail(SourcesError),
}

/// The content of the sources file that was found, if one was.
pub open spec fn read_content(existing: Option<Vec<u8>>) -> Option<Seq<u8>> {
    match existing {
        Some(content) => Some(content@),
        None => None,
    }
}

/// `event` is what the phase `phase` waits for.
pub open spec fn fits(phase: Phase, event: Event) -> bool {
    match event {
        Event::Times { .. } => phase == Phase::Start,
        Event::Files { .. } => phase == Phase::Regenerating,
        Event::Built { .. } => phase == Phase::Building,
        Event::Listed { .. } => phase == Phase::Listing,
    }
}

impl FetchedSources {
    /// `next` is the step that follows `event`.
    ///
    /// At the start, stale sources are regenerated and fresh ones are
    /// listed right away. The files that were read give the plan of the
    /// fetch, or the refusal to write the sources file. A build that
    /// succeeded is followed by the listing of the directory behind the
    /// output link, and any other build ends the discovery with its
    /// failure. The listing gives the manifests and warnings, or the
    /// failure to list.
    pub open spec fn steps(self, event: Event, next: (Phase, Action)) -> bool {
        match event {
            Event::Times { sources, link_modified, config_modified, now } => {
                if is_stale(sources@, link_modified, config_modified, now) {
                    next.0 == Phase::Regenerating && next.1 is ReadFiles
                } else {
                    &&& next.0 == Phase::Listing
                    &&& next.1 matches Action::List { dir }
                    &&& dir@ == self.link_path()
                }
            },
            Event::Files { config_exists, existing, body } => match next.1 {
                Action::WriteAndBuild(plan) => {
                    &&& next.0 == Phase::Building
                    &&& self.fetches(config_exists, read_content(existing), body@, Ok(plan))
                },
                Action::Fail(error) => {
                    &&& next.0 == Phase::Done
                    &&& self.fetches(config_exists, read_content(existing), body@, Err(error))
                },
                _ => false,
            },
            Event::Built { outcome } => match next.1 {
                Action::List { dir } => {
                    &&& next.0 == Phase::Listing
                    &&& build_failure(outcome) is None
                    &&& dir@ == self.link_path()
                },
                Action::Fail(error) => {
                    &&& next.0 == Phase::Done
                    &&& build_failure(outcome) == Some(error@)
                },
                _ => false,
            },
            Event::Listed { listing } => {
                &&& next.0 == Phase::Done
                &&& match next.1 {
                    Action::Return(found) => self.lists(listing, Ok(found)),
                    Action::Fail(error) => self.lists(listing, Err(error)),
                    _ => false,
                }
            },
        }
    }

    /// Takes the discovery one step further: from the phase `phase`, in
    /// which the caller saw `event`, to the next phase and what to do in
    /// it.
    pub fn discovery_step(&self, phase: Phase, event: Event) -> (next: (Phase, Action))
        requires
            self.has_project_dir(),
            fits(phase, event),
        ensures
            self.steps(event, next),
    {
        match event {
            Event::Times { sources, link_modified, config_modified, now } => {
                if needs_fetch(sources.as_slice(), link_modified, config_modified, now) {
                    (Phase::Regenerating, Action::ReadFiles)
                } else {
                    (Phase::Listing, Action::List { dir: self.fetched_sources_symlink() })
                }
            },
            Event::Files { config_exists, existing, body } => {
                let found: Option<&[u8]> = match &existing {
                    Some(content) => Some(content.as_slice()),
                    None => None,
                };
                match self.fetch(config_exists, found, body.as_slice()) {
                    Ok(plan) => (Phase::Building, Action::WriteAndBuild(plan)),
                    Err(error) => (Phase::Done, Action::Fail(error)),
                }
            },
            Event::Built { outcome } => {
                match materialized(outcome, self.fetched_sources_symlink()) {
                    Ok(dir) => (Phase::Listing, Action::List { dir }),
                    Err(error) => (Phase::Done, Action::Fail(error)),
                }
            },
            Event::Listed { listing } => {
                match self.get_cargo_tomls(listing) {
                    Ok(found) => (Phase::Done, Action::Return(found)),
                    Err(error) => (Phase::Done, Action::Fail(error)),
                }
            },
        }
    }

    /// Takes the discovery one step further as `discovery_step` does, or
    /// gives `None` where the configuration file's path has no parent or
    /// `event` is not what the phase waits for.
    pub fn try_discovery_step(&self, phase: Phase, event: Event) -> (next: Option<(Phase, Action)>)
        ensures
            match next {
                Some(step) => self.has_project_dir() && fits(phase, event) && self.steps(
                    event,
                    step,
                ),
                None => !(self.has_project_dir() && fits(phase, event)),
            },
    {
        let expected = match &event {
            Event::Times { .. } => Phase::Start,
            Event::Files { .. } => Phase::Regenerating,
            Event::Built { .. } => Phase::Building,
            Event::Listed { .. } => Phase::Listing,
        };
        if phase == expected && self.try_project_dir().is_some() {
            Some(self.discovery_step(phase, event))
        } else {
            None
        }
    }
}

/// While a declaration that is not reproducible stands in the
/// configuration, every discovery starts with a fetch: the first step
/// never goes to the listing.
pub proof fn lemma_unreproducible_source_is_always_fetched(
    project: FetchedSources,
    sources: Vec<Source>,
    at: int,
    link_modified: Option<i128>,
    config_modified: Option<i128>,
    now: i128,
    next: (Phase, Action),
)
    requires
        0 <= at < sources@.len(),
        !sources@[at]@.is_reproducible(),
        project.steps(Event::Times { sources, link_modified, config_modified, now }, next),
    ensures
        next.0 == Phase::Regenerating,
        next.1 is ReadFiles,
{
}

} // verus!
