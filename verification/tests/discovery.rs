use fetched_sources::discovery::{discover, workspace_member, MemberEntry};
use fetched_sources::error::{MissingFile, Warning};

fn entry(path: &str, is_dir: bool, has_cargo_toml: bool, has_cargo_lock: bool) -> MemberEntry {
    MemberEntry { path: path.to_string(), is_dir, has_cargo_toml, has_cargo_lock }
}

#[test]
fn member_files_lie_in_the_member_directory() {
    let member = workspace_member("/out/foo");
    assert_eq!(member.manifest_path, "/out/foo/Cargo.toml");
    assert_eq!(member.lockfile_path, "/out/foo/Cargo.lock");
}

#[test]
fn a_member_with_both_files_gives_no_warning() {
    let found = discover(&[entry("/out/foo", true, true, true)]);
    assert_eq!(found.cargo_tomls, vec!["/out/foo/Cargo.toml".to_string()]);
    assert!(found.warnings.is_empty());
}

#[test]
fn a_member_without_lock_file_is_kept_with_one_warning() {
    let found = discover(&[entry("/out/bar", true, true, false)]);
    assert_eq!(found.cargo_tomls, vec!["/out/bar/Cargo.toml".to_string()]);
    assert_eq!(
        found.warnings,
        vec![Warning { missing: MissingFile::Lockfile, dir: "/out/bar".to_string() }]
    );
}

#[test]
fn a_member_without_manifest_is_kept_with_one_warning() {
    let found = discover(&[entry("/out/bar", true, false, true)]);
    assert_eq!(found.cargo_tomls, vec!["/out/bar/Cargo.toml".to_string()]);
    assert_eq!(
        found.warnings,
        vec![Warning { missing: MissingFile::Manifest, dir: "/out/bar".to_string() }]
    );
}

#[test]
fn an_empty_member_gives_both_warnings_in_order() {
    let found = discover(&[entry("/out/bar", true, false, false)]);
    assert_eq!(found.cargo_tomls, vec!["/out/bar/Cargo.toml".to_string()]);
    assert_eq!(
        found.warnings,
        vec![
            Warning { missing: MissingFile::Manifest, dir: "/out/bar".to_string() },
            Warning { missing: MissingFile::Lockfile, dir: "/out/bar".to_string() },
        ]
    );
}

#[test]
fn plain_files_are_passed_over() {
    let found = discover(&[
        entry("/out/README", false, false, false),
        entry("/out/zed", true, true, true),
        entry("/out/notes.txt", false, true, true),
        entry("/out/abc", true, true, true),
    ]);
    assert_eq!(
        found.cargo_tomls,
        vec!["/out/zed/Cargo.toml".to_string(), "/out/abc/Cargo.toml".to_string()]
    );
    assert!(found.warnings.is_empty());
}

#[test]
fn an_empty_directory_has_no_members() {
    let found = discover(&[]);
    assert!(found.cargo_tomls.is_empty());
    assert!(found.warnings.is_empty());
}
