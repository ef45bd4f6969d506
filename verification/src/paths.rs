//! Paths as text, composed by the standard library's path handling.

use vstd::prelude::*;

verus! {

/// The text of the parent of the path `path`, as `std::path::Path::parent`
/// gives it, or `None` where the path ends in a root or is empty.
pub uninterp spec fn path_parent(path: Seq<char>) -> Option<Seq<char>>;

/// The text of the path that `std::path::Path::join` makes of the path
/// `base` and the path `name`.
pub uninterp spec fn path_join(base: Seq<char>, name: Seq<char>) -> Seq<char>;

/// Calls `std::path::Path::parent` on the path written in `path`.
///
/// Trusted: the result is the parent's text, or `None` where the path has
/// no parent. The parent of a path given as text is itself text, so nothing
/// is lost when it is turned back into a `String`.
#[verifier::external_body]
pub(crate) fn parent_dir(path: &str) -> (dir: Option<String>)
    ensures
        match dir {
            Some(d) => path_parent(path@) == Some(d@),
            None => path_parent(path@).is_none(),
        },
{
    match std::path::Path::new(path).parent() {
        Some(p) => Some(p.to_string_lossy().into_owned()),
        None => None,
    }
}

/// Calls `std::path::Path::join` on the paths written in `base` and `name`.
///
/// Trusted: the result is the text of the joined path. Both parts are text,
/// so the joined path is text too.
#[verifier::external_body]
pub(crate) fn join_path(base: &str, name: &str) -> (joined: String)
    ensures
        joined@ == path_join(base@, name@),
{
    std::path::Path::new(base).join(name).to_string_lossy().into_owned()
}

} // verus!
