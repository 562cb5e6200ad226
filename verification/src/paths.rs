//! Paths as text, and the one question about them that is left to the
//! standard library.

use vstd::prelude::*;

verus! {

/// The texts of a sequence of paths.
pub open spec fn path_texts(paths: Seq<String>) -> Seq<Seq<char>> {
    paths.map_values(|path: String| path@)
}

/// The text of an optional path.
pub open spec fn optional_text(path: Option<String>) -> Option<Seq<char>> {
    match path {
        Some(text) => Some(text@),
        None => None,
    }
}

/// The parent of the path written as `path`: the path without its final
/// component, or `None` where the path ends in a root or is empty. The
/// answer is read off the text alone, by the platform's path syntax, and is
/// not spelled out here: it is what `std::path::Path::parent` gives.
pub uninterp spec fn parent_of_path(path: Seq<char>) -> Option<Seq<char>>;

/// Calls `std::path::Path::parent` on the path written as `path`.
///
/// Trusted: the result is `parent_of_path` of the text. `Path::parent` looks
/// at the text of the path only and never at the file system; the parent of
/// a path given as UTF-8 is UTF-8 again, so turning it back into a `String`
/// loses nothing.
#[verifier::external_body]
pub(crate) fn parent_dir(path: &str) -> (parent: Option<String>)
    ensures
        optional_text(parent) == parent_of_path(path@),
{
    match std::path::Path::new(path).parent() {
        Some(dir) => Some(dir.to_string_lossy().into_owned()),
        None => None,
    }
}

} // verus!
