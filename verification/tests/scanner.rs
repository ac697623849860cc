use mediary_core::data::database::SqliteInsertError;
use mediary_core::scanner::{media_type_of_bytes, mime_to_media_type, MatcherKind, ScanError};
use mediary_core::types::media_type::MediaType;

#[test]
fn mime_to_media_type_maps_every_kind() {
    assert_eq!(mime_to_media_type(Some(MatcherKind::Image)), MediaType::Image);
    assert_eq!(mime_to_media_type(Some(MatcherKind::Video)), MediaType::Video);
    assert_eq!(mime_to_media_type(Some(MatcherKind::Audio)), MediaType::Audio);
    assert_eq!(mime_to_media_type(Some(MatcherKind::Book)), MediaType::Document);
    assert_eq!(mime_to_media_type(Some(MatcherKind::Doc)), MediaType::Document);
    assert_eq!(mime_to_media_type(Some(MatcherKind::Text)), MediaType::Document);
    assert_eq!(mime_to_media_type(Some(MatcherKind::App)), MediaType::Unknown);
    assert_eq!(mime_to_media_type(Some(MatcherKind::Archive)), MediaType::Unknown);
    assert_eq!(mime_to_media_type(Some(MatcherKind::Font)), MediaType::Unknown);
    assert_eq!(mime_to_media_type(Some(MatcherKind::Custom)), MediaType::Unknown);
    assert_eq!(mime_to_media_type(None), MediaType::Unknown);
}

#[test]
fn media_type_of_bytes_recognises_signatures() {
    let png = [0x89, 0x50, 0x4E, 0x47, 0x0D, 0x0A, 0x1A, 0x0A, 0, 0, 0, 0x0D];
    assert_eq!(media_type_of_bytes(&png), MediaType::Image);
    let jpg = [0xFF, 0xD8, 0xFF, 0xE0, 0, 0x10];
    assert_eq!(media_type_of_bytes(&jpg), MediaType::Image);
    let mp3 = [0x49, 0x44, 0x33, 0x03, 0, 0, 0, 0];
    assert_eq!(media_type_of_bytes(&mp3), MediaType::Audio);
    // infer files PDF under archives
    let pdf = b"%PDF-1.7\n";
    assert_eq!(media_type_of_bytes(pdf), MediaType::Unknown);
    let xml = b"<?xml version=\"1.0\"?><a/>";
    assert_eq!(media_type_of_bytes(xml), MediaType::Document);
    let zip = [0x50, 0x4B, 0x03, 0x04, 0, 0, 0, 0];
    assert_eq!(media_type_of_bytes(&zip), MediaType::Unknown);
    assert_eq!(media_type_of_bytes(&[]), MediaType::Unknown);
    assert_eq!(media_type_of_bytes(b"plain words"), MediaType::Unknown);
}

#[test]
fn scan_error_conversions_and_messages() {
    let e: ScanError = SqliteInsertError::Other("boom".into()).into();
    assert!(matches!(e, ScanError::Insert(SqliteInsertError::Other(_))));
    assert_eq!(e.to_string(), "boom");
    let e: ScanError = SqliteInsertError::AlreadyExists.into();
    assert_eq!(e.to_string(), "Item with this path already exists");
    let e: ScanError = std::io::Error::new(std::io::ErrorKind::NotFound, "missing file").into();
    assert!(matches!(e, ScanError::Io(_)));
    assert_eq!(e.to_string(), "missing file");
}
