//! The directory resolver: which directory hosts the temporary file.
//!
//! The temporary file must lie beside the destination, so that the final
//! rename stays within one volume. The resolver names that directory; creating
//! it is left to the caller.

use vstd::prelude::*;

verus! {

/// The parent of `path` as `std::path::Path::parent` computes it on the
/// platform the crate is built for: the path without its final component, or
/// `None` where there is none to remove.
pub uninterp spec fn parent_of(path: Seq<char>) -> Option<Seq<char>>;

/// The text of an optional string.
pub open spec fn text_of(text: Option<String>) -> Option<Seq<char>> {
    match text {
        Some(text) => Some(text@),
        None => None,
    }
}

/// The name of the current working directory: a single dot.
pub open spec fn current_directory() -> Seq<char> {
    seq!['.']
}

/// The directory that hosts the temporary file for a destination whose parent
/// component is `parent`: the parent itself, or the current working directory
/// where the destination has no parent component or an empty one.
pub open spec fn directory_for(parent: Option<Seq<char>>) -> Seq<char> {
    match parent {
        Some(parent) => if parent.len() == 0 {
            current_directory()
        } else {
            parent
        },
        None => current_directory(),
    }
}

/// Calls `std::path::Path::parent` on `path`. Trusted: the result is the one
/// that `parent_of` names, which is all that is claimed of it.
#[verifier::external_body]
fn path_parent(path: &str) -> (parent: Option<String>)
    ensures
        text_of(parent) == parent_of(path@),
{
    match std::path::Path::new(path).parent() {
        Some(parent) => Some(parent.to_string_lossy().into_owned()),
        None => None,
    }
}

/// Chooses the hosting directory from a destination's parent component.
pub fn directory_or_current(parent: Option<String>) -> (dir: String)
    ensures
        dir@ == directory_for(text_of(parent)),
        dir@.len() > 0,
{
    proof {
        reveal_strlit(".");
    }
    match parent {
        Some(parent) => {
            if parent.as_str().is_empty() {
                let dir = ".".to_owned();
                assert(dir@ =~= current_directory());
                dir
            } else {
                parent
            }
        },
        None => {
            let dir = ".".to_owned();
            assert(dir@ =~= current_directory());
            dir
        },
    }
}

/// Returns the directory that hosts the temporary file for the destination
/// `path`: its parent, or `"."` where the path has no parent component or an
/// empty one. The result is never empty. The caller creates the directory and
/// its missing ancestors.
pub fn get_parent_directory(path: &str) -> (dir: String)
    ensures
        dir@ == directory_for(parent_of(path@)),
        dir@.len() > 0,
{
    directory_or_current(path_parent(path))
}

} // verus!
