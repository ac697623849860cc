//! The tag enum: builtin tags, one per media type, and user-defined tags.

use vstd::prelude::*;

use crate::types::media_type::{media_type_name, MediaType};

verus! {

/// A tag that can be applied to media files.
///
/// Two tags are equal when they are both builtin with the same media type, or
/// both custom with the same name; the database ID takes no part.
#[derive(Debug, Clone)]
pub enum Tag {
    /// A builtin tag matching one of the media types.
    Builtin { id: Option<i64>, media_type: MediaType },
    /// A user-defined tag.
    Custom { id: Option<i64>, name: String },
}

/// When two tags are equal: same kind, and same media type or same name.
pub open spec fn tags_equal(a: Tag, b: Tag) -> bool {
    match (a, b) {
        (Tag::Builtin { media_type: m1, .. }, Tag::Builtin { media_type: m2, .. }) => m1 == m2,
        (Tag::Custom { name: n1, .. }, Tag::Custom { name: n2, .. }) => n1@ == n2@,
        _ => false,
    }
}

/// The text a tag is shown as: its media type's name, or its own name.
pub open spec fn tag_text(t: Tag) -> Seq<char> {
    match t {
        Tag::Builtin { media_type, .. } => media_type_name(media_type),
        Tag::Custom { name, .. } => name@,
    }
}

/// The database ID of a tag, if it has one.
pub open spec fn tag_id_of(t: Tag) -> Option<i64> {
    match t {
        Tag::Builtin { id, .. } => id,
        Tag::Custom { id, .. } => id,
    }
}

impl PartialEq for Tag {
    fn eq(&self, other: &Self) -> (r: bool) {
        match self {
            Tag::Builtin { media_type: m1, .. } => match other {
                Tag::Builtin { media_type: m2, .. } => {
                    let m1: MediaType = *m1;
                    let m2: MediaType = *m2;
                    m1 == m2
                },
                Tag::Custom { .. } => false,
            },
            Tag::Custom { name: n1, .. } => match other {
                Tag::Builtin { .. } => false,
                Tag::Custom { name: n2, .. } => n1.eq(n2),
            },
        }
    }
}

impl vstd::std_specs::cmp::PartialEqSpecImpl for Tag {
    open spec fn obeys_eq_spec() -> bool {
        true
    }

    open spec fn eq_spec(&self, other: &Self) -> bool {
        tags_equal(*self, *other)
    }
}

impl Eq for Tag {

}

impl Tag {
    /// The text this tag is shown as: the name of its media type for a
    /// builtin tag, its name for a custom tag.
    pub fn to_string(&self) -> (s: String)
        ensures
            s@ == tag_text(*self),
    {
        match self {
            Tag::Builtin { media_type, .. } => media_type.to_string(),
            Tag::Custom { name, .. } => name.clone(),
        }
    }
}

/// Tag equality is reflexive.
pub proof fn lemma_tag_eq_reflexive(a: Tag)
    ensures
        tags_equal(a, a),
{
}

/// Tag equality is symmetric.
pub proof fn lemma_tag_eq_symmetric(a: Tag, b: Tag)
    ensures
        tags_equal(a, b) == tags_equal(b, a),
{
}

/// Tag equality is transitive.
pub proof fn lemma_tag_eq_transitive(a: Tag, b: Tag, c: Tag)
    requires
        tags_equal(a, b),
        tags_equal(b, c),
    ensures
        tags_equal(a, c),
{
}

/// Tag equality ignores database IDs: builtin tags of one media type are
/// equal, and so are custom tags of one name.
pub proof fn lemma_tag_eq_ignores_ids(mt: MediaType, name: String, a: Option<i64>, b: Option<i64>)
    ensures
        tags_equal(Tag::Builtin { id: a, media_type: mt }, Tag::Builtin { id: b, media_type: mt }),
        tags_equal(Tag::Custom { id: a, name: name }, Tag::Custom { id: b, name: name }),
{
}

/// A builtin tag never equals a custom tag, whatever its name.
pub proof fn lemma_builtin_never_equals_custom(a: Tag, b: Tag)
    requires
        a is Builtin,
        b is Custom,
    ensures
        !tags_equal(a, b),
        !tags_equal(b, a),
{
}

/// Equal tags are shown as the same text.
pub proof fn lemma_equal_tags_same_text(a: Tag, b: Tag)
    requires
        tags_equal(a, b),
    ensures
        tag_text(a) == tag_text(b),
{
}

} // verus!
