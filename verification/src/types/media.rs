//! The media struct: a file that mediary keeps track of.

use vstd::prelude::*;
use vstd::std_specs::cmp::PartialEqSpec;

use crate::data::conversion::SystemTime;
use crate::types::media_type::MediaType;

verus! {

/// A representation of a media file stored in mediary.
///
/// The path is held as text, the form in which it is stored in the database.
/// Two media are equal when their paths name the same path.
#[derive(Debug, Clone)]
pub struct Media {
    /// The database ID of the media, if it exists.
    pub id: Option<i64>,
    /// The path to the file where the media is stored.
    pub path: String,
    /// The type of this media.
    pub media_type: MediaType,
    /// The size of this media in bytes.
    pub size_bytes: u64,
    /// The time this media was added.
    pub added_at: SystemTime,
}

/// Whether two path texts name the same path, as `std::path::Path`'s equality
/// decides it (component by component).
pub uninterp spec fn same_path(a: Seq<char>, b: Seq<char>) -> bool;

/// Compares two paths with `PartialEq` of `std::path::Path`. The contract
/// names the result `same_path` and states what `Path`'s `Eq` implementation
/// gives, `Eq` being an equivalence: the comparison does not depend on the
/// order of its arguments, and two paths are equal exactly when every path
/// equals both or neither of them. How components are compared is left to the
/// name.
#[verifier::external_body]
fn paths_equal(a: &str, b: &str) -> (r: bool)
    ensures
        r == same_path(a@, b@),
        r == same_path(b@, a@),
        r == (forall|c: Seq<char>| #[trigger] same_path(a@, c) == same_path(b@, c)),
{
    std::path::Path::new(a) == std::path::Path::new(b)
}

/// Whether two path texts name the same path: every path text is the same
/// path as both of them or as neither.
pub open spec fn paths_match(a: Seq<char>, b: Seq<char>) -> bool {
    forall|c: Seq<char>| #[trigger] same_path(a, c) == same_path(b, c)
}

impl PartialEq for Media {
    fn eq(&self, other: &Self) -> (r: bool) {
        paths_equal(self.path.as_str(), other.path.as_str())
    }
}

impl vstd::std_specs::cmp::PartialEqSpecImpl for Media {
    open spec fn obeys_eq_spec() -> bool {
        true
    }

    open spec fn eq_spec(&self, other: &Self) -> bool {
        paths_match(self.path@, other.path@)
    }
}

impl Eq for Media {

}

/// Media equality is an equivalence: a media item equals itself, `a == b`
/// exactly when `b == a`, and `a == b` and `b == c` give `a == c`.
pub proof fn lemma_media_eq_equivalence(a: Media, b: Media, c: Media)
    ensures
        a.eq_spec(&a),
        a.eq_spec(&b) == b.eq_spec(&a),
        a.eq_spec(&b) && b.eq_spec(&c) ==> a.eq_spec(&c),
{
}

} // verus!
