//! The directory that holds a path.

use vstd::prelude::*;
use vstd::string::StringExecFns;

verus! {

/// The path without its last component, as the standard library's
/// `Path::parent` gives it; none for a root and for the empty path. The path
/// is read by the rules of the platform that the library is built for.
pub uninterp spec fn parent_of(path: Seq<char>) -> Option<Seq<char>>;

/// The directory to open in place of a path: its parent, and the root for a
/// path that has none.
pub open spec fn containing_directory(parent: Option<Seq<char>>) -> Seq<char> {
    match parent {
        Some(directory) => directory,
        None => "/"@,
    }
}

/// `std::path::Path::parent` on a path given as text. The parent of such a
/// path is text again. The contract gives the result its name.
#[verifier::external_body]
fn parent(path: &str) -> (r: Option<String>)
    ensures
        r.deep_view() == parent_of(path@),
{
    match std::path::Path::new(path).parent() {
        Some(directory) => Some(directory.to_string_lossy().into_owned()),
        None => None,
    }
}

/// The directory to open in place of a path, from the parent it has or not.
pub fn parent_or_root(parent: Option<String>) -> (r: String)
    ensures
        r@ == containing_directory(parent.deep_view()),
{
    match parent {
        Some(directory) => directory,
        None => String::from_str("/"),
    }
}

/// The directory that holds `path`.
pub fn directory_of(path: &str) -> (r: String)
    ensures
        r@ == containing_directory(parent_of(path@)),
{
    parent_or_root(parent(path))
}

} // verus!
