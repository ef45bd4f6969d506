use fetched_sources::error::SourcesError;
use fetched_sources::materialize::{
    download_and_link_out_of_tree_sources, materialized, BuildOutcome,
};

#[test]
fn build_has_the_fixed_shape() {
    let build = download_and_link_out_of_tree_sources(
        "/proj",
        "/proj/crate2nix-sources.nix",
        "/proj/crate2nix-sources",
        "fetchedSources",
    );
    assert_eq!(build.program, "nix");
    assert_eq!(build.working_dir, "/proj");
    assert_eq!(
        build.args,
        vec![
            "--show-trace".to_string(),
            "build".to_string(),
            "-f".to_string(),
            "/proj/crate2nix-sources.nix".to_string(),
            "fetchedSources".to_string(),
            "-o".to_string(),
            "/proj/crate2nix-sources".to_string(),
        ]
    );
    assert_eq!(build.caption, "Fetching sources via /proj/crate2nix-sources.nix fetchedSources");
}

#[test]
fn a_successful_build_gives_the_link() {
    let outcome = BuildOutcome::Exited { success: true, diagnostics: "warning: x".to_string() };
    assert_eq!(materialized(outcome, "/proj/crate2nix-sources".to_string()), Ok("/proj/crate2nix-sources".to_string()));
}

#[test]
fn a_failed_build_carries_its_diagnostics() {
    let outcome = BuildOutcome::Exited { success: false, diagnostics: "error: boom".to_string() };
    assert_eq!(
        materialized(outcome, "/proj/crate2nix-sources".to_string()),
        Err(SourcesError::MaterializationFailed { diagnostics: "error: boom".to_string() })
    );
}

#[test]
fn a_build_that_did_not_start_carries_the_reason() {
    let outcome = BuildOutcome::NotStarted { reason: "nix: not found".to_string() };
    assert_eq!(
        materialized(outcome, "/proj/crate2nix-sources".to_string()),
        Err(SourcesError::MaterializationFailed { diagnostics: "nix: not found".to_string() })
    );
}
