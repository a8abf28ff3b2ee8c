//! Paths, as text.
//!
//! The configuration gives directories relative to the file it stands in.
//! Resolving them is left to `std::path`, whose rules depend on the platform
//! that the program was built for. Verus does not read `std::path`: the two
//! functions marked `external_body` are believed, and each has a name for
//! what it returns.

use vstd::prelude::*;

verus! {

/// What `Path::join` makes of a base directory and a path: the path itself
/// where it is absolute, else the path below the base. It depends on the two
/// texts alone.
pub uninterp spec fn joined_path(base: Seq<char>, path: Seq<char>) -> Seq<char>;

/// What `Path::file_name` finds in a path: its last component, where it
/// has one that names a file or a directory.
pub uninterp spec fn path_file_name(path: Seq<char>) -> Option<Seq<char>>;

/// `Path::join`, on text.
#[verifier::external_body]
pub(crate) fn join_path(base: &str, path: &str) -> (joined: String)
    ensures
        joined@ == joined_path(base@, path@),
{
    std::path::Path::new(base).join(path).to_string_lossy().to_string()
}

/// `Path::file_name`, on text.
#[verifier::external_body]
pub(crate) fn file_name(path: &str) -> (name: Option<String>)
    ensures
        name.deep_view() == path_file_name(path@),
{
    std::path::Path::new(path).file_name().and_then(|name| name.to_str()).map(
        |name| name.to_string(),
    )
}

} // verus!
