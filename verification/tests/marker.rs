use fetched_sources::marker::{contains, has_generated_marker, marker_bytes, sources_nix_text};

#[test]
fn marker_is_the_generated_note() {
    assert_eq!(marker_bytes(), b"@generated by crate2nix".to_vec());
}

#[test]
fn marker_is_found_anywhere_in_a_file() {
    assert!(has_generated_marker(b"@generated by crate2nix"));
    assert!(has_generated_marker(b"# first line\n# @generated by crate2nix 0.9\n{ }\n"));
    assert!(has_generated_marker(b"{ }\n# @generated by crate2nix"));
}

#[test]
fn marker_is_missed_where_it_is_not() {
    assert!(!has_generated_marker(b""));
    assert!(!has_generated_marker(b"@generated by crate2ni"));
    assert!(!has_generated_marker(b"# @generated by\ncrate2nix\n"));
    assert!(!has_generated_marker(b"# @Generated by crate2nix\n"));
    assert!(!has_generated_marker(b"{ pkgs ? import <nixpkgs> {} }: pkgs.hello\n"));
}

#[test]
fn contains_finds_a_needle_at_either_end() {
    assert!(contains(b"abcdef", b"abc"));
    assert!(contains(b"abcdef", b"def"));
    assert!(contains(b"abcdef", b"cd"));
    assert!(contains(b"abcdef", b""));
    assert!(contains(b"", b""));
    assert!(!contains(b"abcdef", b"ce"));
    assert!(!contains(b"abc", b"abcd"));
    assert!(contains(b"aab", b"ab"));
}

#[test]
fn generated_text_is_the_header_and_the_body() {
    assert_eq!(sources_nix_text(b"{ }\n"), b"# @generated by crate2nix\n{ }\n".to_vec());
    assert_eq!(sources_nix_text(b""), b"# @generated by crate2nix\n".to_vec());
}

#[test]
fn generated_text_carries_the_marker() {
    assert!(has_generated_marker(&sources_nix_text(b"")));
    assert!(has_generated_marker(&sources_nix_text(b"anything at all")));
}
