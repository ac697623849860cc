//! Paths of files in mediary's app data directory.

use vstd::prelude::*;

verus! {

/// The text of the path that `std::path::Path::join` gives for a base path
/// and a path joined onto it.
pub uninterp spec fn joined_path(base: Seq<char>, path: Seq<char>) -> Seq<char>;

/// `std::path::Path::join`, with the joined path turned back into text by
/// `to_string_lossy` (lossless here, as both parts are valid UTF-8). The
/// contract names the result `joined_path`: which separator is used, and
/// when the joined path replaces the base, differ from one target to another,
/// so no case of it is spelled out.
#[verifier::external_body]
fn join_path(base: &str, path: &str) -> (r: String)
    ensures
        r@ == joined_path(base@, path@),
{
    std::path::Path::new(base).join(path).to_string_lossy().into_owned()
}

/// Get the path to a file in mediary's app data directory, given that
/// directory's path.
pub fn get_app_data_file(app_data_dir: &str, file_name: &str) -> (r: String)
    ensures
        r@ == joined_path(app_data_dir@, file_name@),
{
    join_path(app_data_dir, file_name)
}

} // verus!
