//! Finding the manifests of the workspace members in the materialized
//! output.

use vstd::prelude::*;
use crate::error::{MissingFile, Warning};
use crate::materialize::texts;
use crate::paths::{join_path, path_join};

verus! {

/// The manifest and the lock file that a member directory is expected to
/// hold.
#[derive(Debug, Clone, PartialEq, Eq)]
pub struct WorkspaceMember {
    pub manifest_path: String,
    pub lockfile_path: String,
}

/// One entry of the output directory, as it was found: its path, whether
/// it is a directory, and whether the manifest and the lock file of
/// `workspace_member` exist for it.
#[derive(Debug, Clone, PartialEq, Eq)]
pub struct MemberEntry {
    pub path: String,
    pub is_dir: bool,
    pub has_cargo_toml: bool,
    pub has_cargo_lock: bool,
}

/// The manifests of the members and the warnings on them, both in the
/// order of the directory's entries.
#[derive(Debug, Clone, PartialEq, Eq)]
pub struct Discovery {
    pub cargo_tomls: Vec<String>,
    pub warnings: Vec<Warning>,
}

/// The path of the manifest in the directory `dir`.
pub open spec fn manifest_path(dir: Seq<char>) -> Seq<char> {
    path_join(dir, "Cargo.toml"@)
}

/// The path of the lock file in the directory `dir`.
pub open spec fn lockfile_path(dir: Seq<char>) -> Seq<char> {
    path_join(dir, "Cargo.lock"@)
}

/// The manifest that `entry` adds: its own where it is a directory, with
/// or without the files in it, and none where it is not.
pub open spec fn entry_manifests(entry: MemberEntry) -> Seq<Seq<char>> {
    if entry.is_dir {
        seq![manifest_path(entry.path@)]
    } else {
        Seq::empty()
    }
}

/// The warnings that `entry` gives: for a directory one for a missing
/// manifest, then one for a missing lock file.
pub open spec fn entry_warnings(entry: MemberEntry) -> Seq<(MissingFile, Seq<char>)> {
    if !entry.is_dir {
        Seq::empty()
    } else {
        let manifest = if entry.has_cargo_toml {
            Seq::empty()
        } else {
            seq![(MissingFile::Manifest, entry.path@)]
        };
        let lockfile = if entry.has_cargo_lock {
            Seq::empty()
        } else {
            seq![(MissingFile::Lockfile, entry.path@)]
        };
        manifest + lockfile
    }
}

/// The manifests of all `entries`, in their order.
pub open spec fn manifests(entries: Seq<MemberEntry>) -> Seq<Seq<char>>
    decreases entries.len(),
{
    if entries.len() == 0 {
        Seq::empty()
    } else {
        manifests(entries.drop_last()) + entry_manifests(entries.last())
    }
}

/// The warnings on all `entries`, in their order.
pub open spec fn warnings(entries: Seq<MemberEntry>) -> Seq<(MissingFile, Seq<char>)>
    decreases entries.len(),
{
    if entries.len() == 0 {
        Seq::empty()
    } else {
        warnings(entries.drop_last()) + entry_warnings(entries.last())
    }
}

/// The views of `items`.
pub open spec fn warning_views(items: Seq<Warning>) -> Seq<(MissingFile, Seq<char>)> {
    Seq::new(items.len(), |i: int| items[i]@)
}

/// The files that the member directory `dir` is expected to hold.
pub fn workspace_member(dir: &str) -> (member: WorkspaceMember)
    ensures
        member.manifest_path@ == manifest_path(dir@),
        member.lockfile_path@ == lockfile_path(dir@),
{
    WorkspaceMember {
        manifest_path: join_path(dir, "Cargo.toml"),
        lockfile_path: join_path(dir, "Cargo.lock"),
    }
}

/// Goes through the entries of the output directory. Every directory among
/// them is a member and gives its manifest path, whether the manifest is
/// there or not; what is missing is reported in a warning and nothing
/// else.
pub fn discover(entries: &[MemberEntry]) -> (found: Discovery)
    ensures
        texts(found.cargo_tomls@) == manifests(entries@),
        warning_views(found.warnings@) == warnings(entries@),
{
    let mut cargo_tomls: Vec<String> = Vec::new();
    let mut found_warnings: Vec<Warning> = Vec::new();
    let mut i: usize = 0;
    proof {
        assert(texts(cargo_tomls@) =~= manifests(entries@.subrange(0, 0)));
        assert(warning_views(found_warnings@) =~= warnings(entries@.subrange(0, 0)));
    }
    while i < entries.len()
        invariant
            i <= entries.len(),
            texts(cargo_tomls@) == manifests(entries@.subrange(0, i as int)),
            warning_views(found_warnings@) == warnings(entries@.subrange(0, i as int)),
        decreases entries.len() - i,
    {
        let entry = &entries[i];
        let ghost tomls_before = cargo_tomls@;
        let ghost warnings_before = found_warnings@;
        if entry.is_dir {
            let member = workspace_member(entry.path.as_str());
            if !entry.has_cargo_toml {
                found_warnings.push(
                    Warning { missing: MissingFile::Manifest, dir: entry.path.clone() },
                );
            }
            if !entry.has_cargo_lock {
                found_warnings.push(
                    Warning { missing: MissingFile::Lockfile, dir: entry.path.clone() },
                );
            }
            cargo_tomls.push(member.manifest_path);
        }
        proof {
            let next = entries@.subrange(0, i + 1);
            assert(next.drop_last() =~= entries@.subrange(0, i as int));
            assert(texts(cargo_tomls@) =~= texts(tomls_before) + entry_manifests(*entry));
            assert(warning_views(found_warnings@) =~= warning_views(warnings_before)
                + entry_warnings(*entry));
        }
        i += 1;
    }
    proof {
        assert(entries@.subrange(0, i as int) =~= entries@);
    }
    Discovery { cargo_tomls, warnings: found_warnings }
}

/// A member directory that lacks only its lock file still gives its
/// manifest, and exactly one warning, which names the lock file and the
/// directory. One that has both files gives its manifest and no warning.
/// An entry that is no directory gives nothing.
pub proof fn lemma_discovery_is_lenient(before: Seq<MemberEntry>, entry: MemberEntry)
    ensures
        entry.is_dir ==> manifests(before.push(entry)) == manifests(before).push(
            manifest_path(entry.path@),
        ),
        entry.is_dir && entry.has_cargo_toml && !entry.has_cargo_lock ==> warnings(
            before.push(entry),
        ) == warnings(before).push((MissingFile::Lockfile, entry.path@)),
        entry.is_dir && entry.has_cargo_toml && entry.has_cargo_lock ==> warnings(
            before.push(entry),
        ) == warnings(before),
        !entry.is_dir ==> manifests(before.push(entry)) == manifests(before) && warnings(
            before.push(entry),
        ) == warnings(before),
{
    let all = before.push(entry);
    assert(all.drop_last() =~= before);
    assert(manifests(all) =~= manifests(before) + entry_manifests(entry));
    assert(warnings(all) =~= warnings(before) + entry_warnings(entry));
    if entry.is_dir {
        assert(manifests(all) =~= manifests(before).push(manifest_path(entry.path@)));
    }
}

/// There is one manifest for each directory among the entries.
pub proof fn lemma_one_manifest_for_each_directory(entries: Seq<MemberEntry>)
    ensures
        manifests(entries).len() == entries.filter(|e: MemberEntry| e.is_dir).len(),
    decreases entries.len(),
{
    reveal(Seq::filter);
    if entries.len() > 0 {
        lemma_one_manifest_for_each_directory(entries.drop_last());
    }
}

} // verus!
