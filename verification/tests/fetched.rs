use fetched_sources::discovery::MemberEntry;
use fetched_sources::error::{MissingFile, SourcesError, Warning};
use fetched_sources::fetched::FetchedSources;
use fetched_sources::marker::has_generated_marker;
use fetched_sources::materialize::{materialized, BuildOutcome};
use fetched_sources::source::{crates_io_source, git_io_source, Source};

fn project() -> FetchedSources {
    FetchedSources::new("/proj/crate2nix.json".to_string())
}

#[test]
fn layout_follows_the_configuration_file() {
    let sources = project();
    assert_eq!(sources.crate2nix_json_path(), "/proj/crate2nix.json");
    assert_eq!(sources.project_dir(), "/proj");
    assert_eq!(sources.try_project_dir(), Some("/proj".to_string()));
    assert_eq!(sources.sources_nix(), "/proj/crate2nix-sources.nix");
    assert_eq!(sources.fetched_sources_symlink(), "/proj/crate2nix-sources");
}

#[test]
fn a_bare_file_name_lies_in_the_empty_directory() {
    let sources = FetchedSources::new("crate2nix.json".to_string());
    assert_eq!(sources.try_project_dir(), Some("".to_string()));
    assert_eq!(sources.sources_nix(), "crate2nix-sources.nix");
}

#[test]
fn a_path_without_parent_has_no_project_dir() {
    assert_eq!(FetchedSources::new("/".to_string()).try_project_dir(), None);
    assert_eq!(FetchedSources::new("".to_string()).try_project_dir(), None);
    assert_eq!(FetchedSources::new("".to_string()).try_fetch(true, None, b""), None);
    assert_eq!(FetchedSources::new("/".to_string()).try_get_cargo_tomls(Ok(vec![])), None);
}

#[test]
fn regenerate_fails_without_configuration() {
    let sources = project();
    assert_eq!(
        sources.regenerate_sources_nix(false, None, b"{ }"),
        Err(SourcesError::ConfigNotFound { path: "/proj/crate2nix.json".to_string() })
    );
    assert_eq!(
        sources.regenerate_sources_nix(false, Some(b"hand written"), b"{ }"),
        Err(SourcesError::ConfigNotFound { path: "/proj/crate2nix.json".to_string() })
    );
}

#[test]
fn regenerate_refuses_a_file_without_marker() {
    let sources = project();
    assert_eq!(
        sources.regenerate_sources_nix(true, Some(b"{ pkgs }: pkgs.hello\n"), b"{ }"),
        Err(SourcesError::RefuseOverwrite)
    );
    assert_eq!(sources.regenerate_sources_nix(true, Some(b""), b"{ }"), Err(SourcesError::RefuseOverwrite));
}

#[test]
fn regenerate_writes_over_a_generated_file() {
    let sources = project();
    let file = sources
        .regenerate_sources_nix(true, Some(b"# @generated by crate2nix\nold\n"), b"new\n")
        .unwrap();
    assert_eq!(file.path, "/proj/crate2nix-sources.nix");
    assert_eq!(file.content, b"# @generated by crate2nix\nnew\n".to_vec());
    let again = sources.regenerate_sources_nix(true, Some(&file.content), b"new\n").unwrap();
    assert_eq!(again, file);
}

#[test]
fn regenerate_creates_a_missing_file() {
    let file = project().regenerate_sources_nix(true, None, b"body").unwrap();
    assert_eq!(file.path, "/proj/crate2nix-sources.nix");
    assert!(has_generated_marker(&file.content));
}

#[test]
fn fetch_plans_the_write_and_the_build() {
    let sources = project();
    let plan = sources.fetch(true, None, b"{ }\n").unwrap();
    assert_eq!(plan.sources_file.path, "/proj/crate2nix-sources.nix");
    assert_eq!(plan.sources_file.content, b"# @generated by crate2nix\n{ }\n".to_vec());
    assert_eq!(plan.link, "/proj/crate2nix-sources");
    assert_eq!(plan.build.program, "nix");
    assert_eq!(plan.build.working_dir, "/proj");
    assert_eq!(
        plan.build.args,
        vec![
            "--show-trace".to_string(),
            "build".to_string(),
            "-f".to_string(),
            "/proj/crate2nix-sources.nix".to_string(),
            "fetchedSources".to_string(),
            "-o".to_string(),
            "/proj/crate2nix-sources".to_string(),
        ]
    );
    assert_eq!(
        plan.build.caption,
        "Fetching sources via /proj/crate2nix-sources.nix fetchedSources"
    );
    assert_eq!(sources.try_fetch(true, None, b"{ }\n"), Some(Ok(plan)));
}

#[test]
fn fetch_fails_as_regenerating_does() {
    let sources = project();
    assert_eq!(sources.fetch(true, Some(b"mine"), b"{ }"), Err(SourcesError::RefuseOverwrite));
    assert_eq!(
        sources.fetch(false, None, b"{ }"),
        Err(SourcesError::ConfigNotFound { path: "/proj/crate2nix.json".to_string() })
    );
}

#[test]
fn a_failed_listing_is_fatal() {
    assert_eq!(
        project().get_cargo_tomls(Err("No such file or directory".to_string())),
        Err(SourcesError::DirectoryReadFailed {
            path: "/proj/crate2nix-sources".to_string(),
            cause: "No such file or directory".to_string(),
        })
    );
}

#[test]
fn two_sources_from_declaration_to_manifests() {
    let foo = crates_io_source(
        "foo".to_string(),
        semver::Version::parse("1.2.0").unwrap(),
        Ok("sha256-fakeFOO".to_string()),
    )
    .unwrap();
    let bar = git_io_source(
        url::Url::parse("https://example.org/bar.git").unwrap(),
        "abcdef0".to_string(),
        Ok("sha256-fakeBAR".to_string()),
    )
    .unwrap();
    match &foo {
        Source::CratesIo { sha256, .. } => assert_eq!(sha256.as_deref(), Some("sha256-fakeFOO")),
        _ => panic!("foo is a registry package"),
    }
    match &bar {
        Source::Git { sha256, .. } => assert_eq!(sha256.as_deref(), Some("sha256-fakeBAR")),
        _ => panic!("bar is a git revision"),
    }
    assert!(foo.is_complete() && bar.is_complete());

    let body = format!("foo = \"{}\"; bar = \"{}\";\n", "sha256-fakeFOO", "sha256-fakeBAR");
    let sources = project();
    let plan = sources.fetch(true, None, body.as_bytes()).unwrap();
    assert!(has_generated_marker(&plan.sources_file.content));
    assert!(plan.sources_file.content.ends_with(body.as_bytes()));

    let built = materialized(
        BuildOutcome::Exited { success: true, diagnostics: String::new() },
        plan.link.clone(),
    );
    assert_eq!(built, Ok("/proj/crate2nix-sources".to_string()));

    let listing = vec![
        MemberEntry {
            path: "/proj/crate2nix-sources/foo".to_string(),
            is_dir: true,
            has_cargo_toml: true,
            has_cargo_lock: true,
        },
        MemberEntry {
            path: "/proj/crate2nix-sources/bar".to_string(),
            is_dir: true,
            has_cargo_toml: true,
            has_cargo_lock: false,
        },
    ];
    let found = sources.get_cargo_tomls(Ok(listing.clone())).unwrap();
    assert_eq!(
        found.cargo_tomls,
        vec![
            "/proj/crate2nix-sources/foo/Cargo.toml".to_string(),
            "/proj/crate2nix-sources/bar/Cargo.toml".to_string(),
        ]
    );
    assert_eq!(
        found.warnings,
        vec![Warning {
            missing: MissingFile::Lockfile,
            dir: "/proj/crate2nix-sources/bar".to_string(),
        }]
    );
    assert_eq!(sources.try_get_cargo_tomls(Ok(listing)), Some(Ok(found)));
}
