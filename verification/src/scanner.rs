//! File scanning: the media type of a file's contents, and the outcome of a
//! scan.

use infer::MatcherType;
use vstd::prelude::*;

use crate::data::database::{already_exists_message, SqliteInsertError};
use crate::types::media::Media;
use crate::types::media_type::MediaType;

verus! {

#[verifier::external_type_specification]
#[verifier::external_body]
pub struct ExIoError(std::io::Error);

/// The kind of file type that `infer` recognises, one variant for each of
/// `infer::MatcherType`'s.
#[derive(Debug, Clone, Copy, PartialEq, Eq, Structural)]
pub enum MatcherKind {
    App,
    Archive,
    Audio,
    Book,
    Doc,
    Font,
    Image,
    Text,
    Video,
    Custom,
}

/// The kind of file type that `infer::get` recognises in a buffer, if any.
pub uninterp spec fn inferred_kind(buf: Seq<u8>) -> Option<MatcherKind>;

/// Whether `usize` is 64 bits wide on the target.
pub open spec fn usize_is_64_bit() -> bool {
    usize::MAX as int == u64::MAX as int
}

/// `infer::get`: recognises the file type of a buffer by its leading bytes and
/// gives the kind of matcher that recognised it, variant for variant. The
/// result depends on the buffer alone (the matchers are fixed tables of
/// signatures); the contract names it `inferred_kind` and leaves the tables
/// unsaid.
///
/// The call is only made on 64-bit targets: the zstd and LZ4 matchers walk
/// skippable frames by adding a 32-bit length read from the buffer to 8 in a
/// `usize`, which on a 32-bit target can overflow (a panic, or a loop that
/// never ends) for a length near `u32::MAX`.
#[verifier::external_body]
fn infer_matcher_kind(buf: &[u8]) -> (k: Option<MatcherKind>)
    requires
        usize_is_64_bit(),
    ensures
        k == inferred_kind(buf@),
{
    let kind = infer::get(buf)?.matcher_type();
    Some(match kind {
        MatcherType::App => MatcherKind::App,
        MatcherType::Archive => MatcherKind::Archive,
        MatcherType::Audio => MatcherKind::Audio,
        MatcherType::Book => MatcherKind::Book,
        MatcherType::Doc => MatcherKind::Doc,
        MatcherType::Font => MatcherKind::Font,
        MatcherType::Image => MatcherKind::Image,
        MatcherType::Text => MatcherKind::Text,
        MatcherType::Video => MatcherKind::Video,
        MatcherType::Custom => MatcherKind::Custom,
    })
}

/// The media type of a recognised kind of file: images, videos and audio map
/// to their media types; books, documents and text are documents; anything
/// else, or nothing recognised, is unknown.
pub open spec fn media_type_of_kind(kind: Option<MatcherKind>) -> MediaType {
    match kind {
        Some(MatcherKind::Image) => MediaType::Image,
        Some(MatcherKind::Video) => MediaType::Video,
        Some(MatcherKind::Audio) => MediaType::Audio,
        Some(MatcherKind::Book) | Some(MatcherKind::Doc) | Some(MatcherKind::Text) => MediaType::Document,
        _ => MediaType::Unknown,
    }
}

/// Convert a recognised kind of file to a media type.
pub fn mime_to_media_type(mime: Option<MatcherKind>) -> (mt: MediaType)
    ensures
        mt == media_type_of_kind(mime),
{
    match mime {
        Some(kind) => match kind {
            MatcherKind::Image => MediaType::Image,
            MatcherKind::Video => MediaType::Video,
            MatcherKind::Audio => MediaType::Audio,
            MatcherKind::Book | MatcherKind::Doc | MatcherKind::Text => MediaType::Document,
            _ => MediaType::Unknown,
        },
        None => MediaType::Unknown,
    }
}

/// The media type of a file, from its leading bytes. It is for 64-bit
/// targets, on which every buffer is recognised without fail.
pub fn media_type_of_bytes(buf: &[u8]) -> (mt: MediaType)
    requires
        usize_is_64_bit(),
    ensures
        mt == media_type_of_kind(inferred_kind(buf@)),
{
    mime_to_media_type(infer_matcher_kind(buf))
}

/// The text of an I/O error, through its `Display` implementation. It depends
/// on the error, which is opaque here; nothing is promised of it.
#[verifier::external_body]
fn io_error_text(e: &std::io::Error) -> String {
    e.to_string()
}

/// An error that may occur during a file/directory scan.
#[derive(Debug)]
pub enum ScanError {
    /// An I/O error.
    Io(std::io::Error),
    /// A database insert error.
    Insert(SqliteInsertError),
}

impl ScanError {
    /// The message of this error: that of the I/O or insert error it holds.
    pub fn to_string(&self) -> (s: String)
        ensures
            *self matches ScanError::Insert(SqliteInsertError::AlreadyExists) ==> s@ == already_exists_message(),
            *self matches ScanError::Insert(SqliteInsertError::Other(m)) ==> s@ == m@,
    {
        match self {
            ScanError::Io(e) => io_error_text(e),
            ScanError::Insert(e) => e.to_string(),
        }
    }
}

impl From<std::io::Error> for ScanError {
    fn from(e: std::io::Error) -> (r: Self) {
        ScanError::Io(e)
    }
}

impl vstd::std_specs::convert::FromSpecImpl<std::io::Error> for ScanError {
    open spec fn obeys_from_spec() -> bool {
        true
    }

    open spec fn from_spec(e: std::io::Error) -> Self {
        ScanError::Io(e)
    }
}

impl From<SqliteInsertError> for ScanError {
    fn from(e: SqliteInsertError) -> (r: Self) {
        ScanError::Insert(e)
    }
}

impl vstd::std_specs::convert::FromSpecImpl<SqliteInsertError> for ScanError {
    open spec fn obeys_from_spec() -> bool {
        true
    }

    open spec fn from_spec(e: SqliteInsertError) -> Self {
        ScanError::Insert(e)
    }
}

/// The result of a file/directory scan.
#[derive(Debug)]
pub struct ScanResult {
    /// The media items that were inserted.
    pub inserted: Vec<Media>,
    /// The paths of the files that were skipped as already stored.
    pub skipped_duplicates: Vec<String>,
    /// The paths of the files that had errors, with the error.
    pub errors: Vec<(String, ScanError)>,
}

} // verus!
