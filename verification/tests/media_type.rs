use mediary_core::types::media_type::{MediaType, ParseMediaTypeError};

#[test]
fn test_media_type_display() {
    assert_eq!(MediaType::Image.to_string(), "Image");
    assert_eq!(MediaType::Video.to_string(), "Video");
    assert_eq!(MediaType::Audio.to_string(), "Audio");
    assert_eq!(MediaType::Document.to_string(), "Document");
    assert_eq!(MediaType::Unknown.to_string(), "Unknown");
}

#[test]
fn test_media_type_from_str_case_insensitive() {
    assert_eq!(MediaType::from_str("image").unwrap(), MediaType::Image);
    assert_eq!(MediaType::from_str("IMAGE").unwrap(), MediaType::Image);
    assert_eq!(MediaType::from_str("Image").unwrap(), MediaType::Image);
    assert_eq!(MediaType::from_str("iMaGe").unwrap(), MediaType::Image);

    assert_eq!(MediaType::from_str("video").unwrap(), MediaType::Video);
    assert_eq!(MediaType::from_str("VIDEO").unwrap(), MediaType::Video);
    assert_eq!(MediaType::from_str("Video").unwrap(), MediaType::Video);
    assert_eq!(MediaType::from_str("vIdEo").unwrap(), MediaType::Video);

    assert_eq!(MediaType::from_str("audio").unwrap(), MediaType::Audio);
    assert_eq!(MediaType::from_str("AUDIO").unwrap(), MediaType::Audio);
    assert_eq!(MediaType::from_str("Audio").unwrap(), MediaType::Audio);
    assert_eq!(MediaType::from_str("aUdIo").unwrap(), MediaType::Audio);

    assert_eq!(MediaType::from_str("document").unwrap(), MediaType::Document);
    assert_eq!(MediaType::from_str("DOCUMENT").unwrap(), MediaType::Document);
    assert_eq!(MediaType::from_str("Document").unwrap(), MediaType::Document);
    assert_eq!(MediaType::from_str("dOcUmEnT").unwrap(), MediaType::Document);

    assert_eq!(MediaType::from_str("unknown").unwrap(), MediaType::Unknown);
    assert_eq!(MediaType::from_str("UNKNOWN").unwrap(), MediaType::Unknown);
    assert_eq!(MediaType::from_str("Unknown").unwrap(), MediaType::Unknown);
    assert_eq!(MediaType::from_str("uNkNoWn").unwrap(), MediaType::Unknown);
}

#[test]
fn test_media_type_from_str_fails_invalid_string() {
    assert!(MediaType::from_str("NotAMediaType").is_err());
}

#[test]
fn media_type_name_round_trip() {
    for mt in MediaType::all() {
        assert_eq!(MediaType::from_str(&mt.to_string()).unwrap(), mt);
        assert_eq!(MediaType::from_str(mt.as_str()).unwrap(), mt);
    }
}

#[test]
fn media_type_parse_edge_cases() {
    assert_eq!(MediaType::from_str(""), Err(ParseMediaTypeError::VariantNotFound));
    assert_eq!(MediaType::from_str("Images"), Err(ParseMediaTypeError::VariantNotFound));
    assert_eq!(MediaType::from_str("Imag"), Err(ParseMediaTypeError::VariantNotFound));
    assert_eq!(MediaType::from_str(" image"), Err(ParseMediaTypeError::VariantNotFound));
    // only ASCII letters fold: the Kelvin sign is not a 'k'
    assert_eq!(MediaType::from_str("un\u{212A}nown"), Err(ParseMediaTypeError::VariantNotFound));
}

#[test]
fn all_media_types_in_order() {
    assert_eq!(
        MediaType::all(),
        vec![
            MediaType::Image,
            MediaType::Video,
            MediaType::Audio,
            MediaType::Document,
            MediaType::Unknown
        ]
    );
}

#[test]
fn media_type_parses_through_from_str_trait() {
    assert_eq!("aUDio".parse::<MediaType>(), Ok(MediaType::Audio));
    assert_eq!("sound".parse::<MediaType>(), Err(ParseMediaTypeError::VariantNotFound));
}
