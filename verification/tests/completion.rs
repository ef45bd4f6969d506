use fetched_sources::error::SourcesError;
use fetched_sources::source::{crates_io_source, git_io_source, Source};

fn parse_version(text: &str) -> semver::Version {
    semver::Version::parse(text).unwrap()
}

fn parse_url(text: &str) -> url::Url {
    url::Url::parse(text).unwrap()
}

#[test]
fn crates_io_source_records_the_fetched_hash() {
    let done = crates_io_source("foo".to_string(), parse_version("1.2.0"), Ok("sha256-fakeFOO".to_string()));
    assert_eq!(
        done,
        Ok(Source::CratesIo {
            name: "foo".to_string(),
            version: parse_version("1.2.0"),
            sha256: Some("sha256-fakeFOO".to_string()),
        })
    );
}

#[test]
fn git_io_source_records_the_fetched_hash() {
    let done = git_io_source(
        parse_url("https://example.org/bar.git"),
        "abcdef0".to_string(),
        Ok("sha256-fakeBAR".to_string()),
    );
    assert_eq!(
        done,
        Ok(Source::Git {
            url: parse_url("https://example.org/bar.git"),
            rev: "abcdef0".to_string(),
            ref_name: None,
            sha256: Some("sha256-fakeBAR".to_string()),
        })
    );
}

#[test]
fn crates_io_source_surfaces_the_fetch_failure() {
    let done = crates_io_source("foo".to_string(), parse_version("1.2.0"), Err("not found".to_string()));
    assert_eq!(
        done,
        Err(SourcesError::PrefetchFailed {
            source: Source::CratesIo {
                name: "foo".to_string(),
                version: parse_version("1.2.0"),
                sha256: None,
            },
            cause: "not found".to_string(),
        })
    );
}

#[test]
fn git_io_source_surfaces_the_fetch_failure() {
    let done = git_io_source(parse_url("https://example.org/bar.git"), "abcdef0".to_string(), Err("offline".to_string()));
    assert_eq!(
        done,
        Err(SourcesError::PrefetchFailed {
            source: Source::Git {
                url: parse_url("https://example.org/bar.git"),
                rev: "abcdef0".to_string(),
                ref_name: None,
                sha256: None,
            },
            cause: "offline".to_string(),
        })
    );
}

#[test]
fn completing_twice_gives_the_same_hash() {
    let first = crates_io_source("foo".to_string(), parse_version("1.2.0"), Ok("sha256-fakeFOO".to_string()));
    let second = crates_io_source("foo".to_string(), parse_version("1.2.0"), Ok("sha256-fakeFOO".to_string()));
    assert_eq!(first, second);
    let again = first.clone().unwrap().complete(Ok("sha256-other".to_string()));
    assert_eq!(again, first);
}

#[test]
fn a_recorded_hash_survives_a_failed_fetch() {
    let complete = Source::Git {
        url: parse_url("https://example.org/bar.git"),
        rev: "abcdef0".to_string(),
        ref_name: Some("main".to_string()),
        sha256: Some("sha256-fakeBAR".to_string()),
    };
    assert!(complete.is_complete());
    assert_eq!(complete.clone().complete(Err("offline".to_string())), Ok(complete));
}

#[test]
fn a_nix_source_needs_no_hash() {
    let nix = Source::Nix { file: "./sources.nix".to_string(), attr: Some("pkg".to_string()) };
    assert!(nix.is_complete());
    assert!(!nix.is_reproducible());
    assert_eq!(nix.clone().complete(Ok("sha256-x".to_string())), Ok(nix.clone()));
    assert_eq!(nix.identity(), "./sources.nix pkg");
    let bare = Source::Nix { file: "./sources.nix".to_string(), attr: None };
    assert_eq!(bare.identity(), "./sources.nix");
}

#[test]
fn identity_and_caption_of_a_registry_package() {
    let foo = Source::CratesIo { name: "foo".to_string(), version: parse_version("1.2.0-rc.1+b7"), sha256: None };
    assert!(!foo.is_complete());
    assert!(foo.is_reproducible());
    assert_eq!(foo.identity(), "foo 1.2.0-rc.1+b7");
    assert_eq!(foo.prefetch_caption(), "Prefetching foo 1.2.0-rc.1+b7: ");
}

#[test]
fn identity_and_caption_of_a_git_revision() {
    let bar = Source::Git {
        url: parse_url("https://example.org/bar.git"),
        rev: "abcdef0".to_string(),
        ref_name: None,
        sha256: None,
    };
    assert_eq!(bar.identity(), "https://example.org/bar.git#abcdef0");
    assert_eq!(bar.prefetch_caption(), "Prefetching https://example.org/bar.git#abcdef0: ");
}
