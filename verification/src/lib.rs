//! Out-of-tree build sources of a project: completing source declarations
//! with their content hash, guarding and composing the generated sources
//! file, planning the build that materializes the sources, deciding when
//! that build has to be repeated, and finding the manifests of the
//! materialized workspace members.
//!
//! Nothing here touches the file system or starts a process. A caller
//! observes the world, hands the observations over as plain values, and
//! carries out what comes back.

pub mod paths;
pub mod error;
pub mod source;
pub mod marker;
pub mod staleness;
pub mod materialize;
pub mod discovery;
pub mod fetched;
pub mod workflow;
