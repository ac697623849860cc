use mediary_core::data::database::get_tag_id;
use mediary_core::types::media_type::MediaType;
use mediary_core::types::tag::Tag;

#[test]
fn test_tag_eq_builtin_only_checks_media_type() {
    let tag1 = Tag::Builtin { id: None, media_type: MediaType::Image };
    let tag2 = Tag::Builtin { id: Some(1), media_type: MediaType::Image };
    let tag3 = Tag::Builtin { id: None, media_type: MediaType::Audio };
    assert_eq!(tag1, tag2);
    assert_ne!(tag1, tag3);
}

#[test]
fn test_tag_eq_custom_only_checks_name() {
    let tag1 = Tag::Custom { id: None, name: "Funny".into() };
    let tag2 = Tag::Custom { id: Some(1), name: "Funny".into() };
    let tag3 = Tag::Custom { id: None, name: "Serious".into() };
    assert_eq!(tag1, tag2);
    assert_ne!(tag1, tag3);
}

#[test]
fn test_tag_eq_builtin_and_custom_never_true() {
    let tag1 = Tag::Builtin { id: None, media_type: MediaType::Image };
    let tag2 = Tag::Custom { id: None, name: "Image".into() };
    assert_ne!(tag1, tag2);
    assert_ne!(tag2, tag1);
}

#[test]
fn test_tag_display_builtin_uses_media_type_display() {
    let tag = Tag::Builtin { id: None, media_type: MediaType::Image };
    assert_eq!(tag.to_string(), "Image");
}

#[test]
fn test_tag_display_custom_uses_name() {
    let tag = Tag::Custom { id: None, name: "Funny".into() };
    assert_eq!(tag.to_string(), "Funny");
}

#[test]
fn tag_eq_is_an_equivalence_on_examples() {
    let tags = vec![
        Tag::Builtin { id: None, media_type: MediaType::Video },
        Tag::Builtin { id: Some(3), media_type: MediaType::Video },
        Tag::Builtin { id: Some(4), media_type: MediaType::Document },
        Tag::Custom { id: Some(5), name: "Video".into() },
        Tag::Custom { id: None, name: "Video".into() },
        Tag::Custom { id: None, name: "video".into() },
    ];
    for a in &tags {
        assert_eq!(a, a);
        for b in &tags {
            assert_eq!(a == b, b == a);
            for c in &tags {
                if a == b && b == c {
                    assert_eq!(a, c);
                }
            }
        }
    }
    assert_ne!(tags[4], tags[5]);
}

#[test]
fn get_tag_id_reads_either_variant() {
    assert_eq!(get_tag_id(&Tag::Builtin { id: Some(7), media_type: MediaType::Audio }), Some(7));
    assert_eq!(get_tag_id(&Tag::Custom { id: Some(8), name: "x".into() }), Some(8));
    assert_eq!(get_tag_id(&Tag::Custom { id: None, name: "x".into() }), None);
}
