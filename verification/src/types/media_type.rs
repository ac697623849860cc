//! The media type enum, its textual form and its case-insensitive parsing.

use vstd::prelude::*;

verus! {

/// A type of media that can be represented in mediary.
///
/// Its text form is the variant's name (`"Image"`, `"Video"`, ...); parsing
/// accepts that name in any ASCII case.
#[derive(Debug, Clone, Copy, PartialEq, Eq, Structural)]
pub enum MediaType {
    /// An image (e.g. .jpg).
    Image,
    /// A video (e.g. .mp4).
    Video,
    /// An audio (e.g. .mp3).
    Audio,
    /// A document (e.g. .txt).
    Document,
    /// An unknown/unsupported media type.
    Unknown,
}

/// The error returned when a string names no media type.
#[derive(Debug, Clone, Copy, PartialEq, Eq, Structural)]
pub enum ParseMediaTypeError {
    /// No variant matches the string, in any ASCII case.
    VariantNotFound,
}

/// The name of a media type, as it is displayed and stored.
pub open spec fn media_type_name(mt: MediaType) -> Seq<char> {
    match mt {
        MediaType::Image => seq!['I', 'm', 'a', 'g', 'e'],
        MediaType::Video => seq!['V', 'i', 'd', 'e', 'o'],
        MediaType::Audio => seq!['A', 'u', 'd', 'i', 'o'],
        MediaType::Document => seq!['D', 'o', 'c', 'u', 'm', 'e', 'n', 't'],
        MediaType::Unknown => seq!['U', 'n', 'k', 'n', 'o', 'w', 'n'],
    }
}

/// The ASCII lower-case form of a character; other characters are unchanged.
pub open spec fn ascii_lower(c: char) -> char {
    if 'A' <= c && c <= 'Z' {
        ((c as u32) + 32) as char
    } else {
        c
    }
}

/// Two strings are equal when ASCII letters are compared without regard to case.
pub open spec fn eq_ignore_ascii_case(a: Seq<char>, b: Seq<char>) -> bool {
    &&& a.len() == b.len()
    &&& forall|i: int| 0 <= i < a.len() ==> #[trigger] ascii_lower(a[i]) == ascii_lower(b[i])
}

/// The media type that a string names, in any ASCII case, if there is one.
pub open spec fn parse_media_type(s: Seq<char>) -> Option<MediaType> {
    if eq_ignore_ascii_case(s, media_type_name(MediaType::Image)) {
        Some(MediaType::Image)
    } else if eq_ignore_ascii_case(s, media_type_name(MediaType::Video)) {
        Some(MediaType::Video)
    } else if eq_ignore_ascii_case(s, media_type_name(MediaType::Audio)) {
        Some(MediaType::Audio)
    } else if eq_ignore_ascii_case(s, media_type_name(MediaType::Document)) {
        Some(MediaType::Document)
    } else if eq_ignore_ascii_case(s, media_type_name(MediaType::Unknown)) {
        Some(MediaType::Unknown)
    } else {
        None
    }
}

/// Every media type, in declaration order.
pub open spec fn all_media_types() -> Seq<MediaType> {
    seq![
        MediaType::Image,
        MediaType::Video,
        MediaType::Audio,
        MediaType::Document,
        MediaType::Unknown,
    ]
}

/// Compares two strings character by character, ignoring ASCII case.
fn str_eq_ignore_ascii_case(a: &str, b: &str) -> (r: bool)
    ensures
        r == eq_ignore_ascii_case(a@, b@),
{
    let n = a.unicode_len();
    if n != b.unicode_len() {
        return false;
    }
    let mut i: usize = 0;
    while i < n
        invariant
            n == a@.len(),
            n == b@.len(),
            i <= n,
            forall|j: int| 0 <= j < i ==> #[trigger] ascii_lower(a@[j]) == ascii_lower(b@[j]),
        decreases n - i,
    {
        let ca = a.get_char(i);
        let cb = b.get_char(i);
        let la = if 'A' <= ca && ca <= 'Z' {
            char_from_ascii_upper(ca)
        } else {
            ca
        };
        let lb = if 'A' <= cb && cb <= 'Z' {
            char_from_ascii_upper(cb)
        } else {
            cb
        };
        if la != lb {
            assert(ascii_lower(a@[i as int]) != ascii_lower(b@[i as int]));
            return false;
        }
        i = i + 1;
    }
    true
}

/// The lower-case letter of an upper-case ASCII letter.
fn char_from_ascii_upper(c: char) -> (r: char)
    requires
        'A' <= c && c <= 'Z',
    ensures
        r == ascii_lower(c),
{
    let code: u32 = (c as u32) + 32;
    let lower: u8 = code as u8;
    lower as char
}

impl MediaType {
    /// Every media type, in declaration order.
    pub fn all() -> (v: Vec<MediaType>)
        ensures
            v@ == all_media_types(),
    {
        let v = vec![
            MediaType::Image,
            MediaType::Video,
            MediaType::Audio,
            MediaType::Document,
            MediaType::Unknown,
        ];
        assert(v@ =~= all_media_types());
        v
    }

    /// The name of this media type, as a string slice.
    pub fn as_str(&self) -> (s: &'static str)
        ensures
            s@ == media_type_name(*self),
    {
        match self {
            MediaType::Image => {
                let s = "Image";
                proof {
                    reveal_strlit("Image");
                }
                assert(s@ =~= media_type_name(*self));
                s
            },
            MediaType::Video => {
                let s = "Video";
                proof {
                    reveal_strlit("Video");
                }
                assert(s@ =~= media_type_name(*self));
                s
            },
            MediaType::Audio => {
                let s = "Audio";
                proof {
                    reveal_strlit("Audio");
                }
                assert(s@ =~= media_type_name(*self));
                s
            },
            MediaType::Document => {
                let s = "Document";
                proof {
                    reveal_strlit("Document");
                }
                assert(s@ =~= media_type_name(*self));
                s
            },
            MediaType::Unknown => {
                let s = "Unknown";
                proof {
                    reveal_strlit("Unknown");
                }
                assert(s@ =~= media_type_name(*self));
                s
            },
        }
    }

    /// The name of this media type (`"Image"`, `"Video"`, ...).
    pub fn to_string(&self) -> (s: String)
        ensures
            s@ == media_type_name(*self),
    {
        String::from_str(self.as_str())
    }

    /// Parses a media type from its name, ignoring ASCII case.
    pub fn from_str(s: &str) -> (r: Result<MediaType, ParseMediaTypeError>)
        ensures
            match parse_media_type(s@) {
                Some(mt) => r == Ok::<MediaType, ParseMediaTypeError>(mt),
                None => r == Err::<MediaType, ParseMediaTypeError>(
                    ParseMediaTypeError::VariantNotFound,
                ),
            },
    {
        if str_eq_ignore_ascii_case(s, MediaType::Image.as_str()) {
            Ok(MediaType::Image)
        } else if str_eq_ignore_ascii_case(s, MediaType::Video.as_str()) {
            Ok(MediaType::Video)
        } else if str_eq_ignore_ascii_case(s, MediaType::Audio.as_str()) {
            Ok(MediaType::Audio)
        } else if str_eq_ignore_ascii_case(s, MediaType::Document.as_str()) {
            Ok(MediaType::Document)
        } else if str_eq_ignore_ascii_case(s, MediaType::Unknown.as_str()) {
            Ok(MediaType::Unknown)
        } else {
            Err(ParseMediaTypeError::VariantNotFound)
        }
    }
}

impl std::str::FromStr for MediaType {
    type Err = ParseMediaTypeError;

    fn from_str(s: &str) -> (r: Result<MediaType, ParseMediaTypeError>)
        ensures
            match parse_media_type(s@) {
                Some(mt) => r == Ok::<MediaType, ParseMediaTypeError>(mt),
                None => r == Err::<MediaType, ParseMediaTypeError>(
                    ParseMediaTypeError::VariantNotFound,
                ),
            },
    {
        MediaType::from_str(s)
    }
}

/// Parsing the name of a media type gives that media type back.
pub proof fn lemma_parse_name_round_trip(mt: MediaType)
    ensures
        parse_media_type(media_type_name(mt)) == Some(mt),
{
    let n = media_type_name(mt);
    assert(eq_ignore_ascii_case(n, n));
    assert(!eq_ignore_ascii_case(n, media_type_name(MediaType::Image)) || mt == MediaType::Image) by {
        if mt != MediaType::Image && eq_ignore_ascii_case(n, media_type_name(MediaType::Image)) {
            assert(ascii_lower(n[1]) == ascii_lower(media_type_name(MediaType::Image)[1]));
        }
    }
    assert(!eq_ignore_ascii_case(n, media_type_name(MediaType::Video)) || mt == MediaType::Video) by {
        if mt != MediaType::Video && eq_ignore_ascii_case(n, media_type_name(MediaType::Video)) {
            assert(ascii_lower(n[0]) == ascii_lower(media_type_name(MediaType::Video)[0]));
        }
    }
    assert(!eq_ignore_ascii_case(n, media_type_name(MediaType::Audio)) || mt == MediaType::Audio) by {
        if mt != MediaType::Audio && eq_ignore_ascii_case(n, media_type_name(MediaType::Audio)) {
            assert(ascii_lower(n[0]) == ascii_lower(media_type_name(MediaType::Audio)[0]));
        }
    }
    assert(!eq_ignore_ascii_case(n, media_type_name(MediaType::Document)) || mt == MediaType::Document) by {
        if mt != MediaType::Document && eq_ignore_ascii_case(n, media_type_name(MediaType::Document)) {
            assert(ascii_lower(n[0]) == ascii_lower(media_type_name(MediaType::Document)[0]));
        }
    }
}

/// Parsing ignores ASCII case: two strings that differ only in the case of
/// ASCII letters parse to the same result.
pub proof fn lemma_parse_ignores_ascii_case(s: Seq<char>, t: Seq<char>)
    requires
        eq_ignore_ascii_case(s, t),
    ensures
        parse_media_type(s) == parse_media_type(t),
{
    assert forall|u: Seq<char>| eq_ignore_ascii_case(s, u) == eq_ignore_ascii_case(t, u) by {
        if eq_ignore_ascii_case(s, u) {
            assert forall|i: int| 0 <= i < t.len() implies #[trigger] ascii_lower(t[i]) == ascii_lower(u[i]) by {
                assert(ascii_lower(s[i]) == ascii_lower(t[i]));
                assert(ascii_lower(s[i]) == ascii_lower(u[i]));
            }
        }
        if eq_ignore_ascii_case(t, u) {
            assert forall|i: int| 0 <= i < s.len() implies #[trigger] ascii_lower(s[i]) == ascii_lower(u[i]) by {
                assert(ascii_lower(s[i]) == ascii_lower(t[i]));
                assert(ascii_lower(t[i]) == ascii_lower(u[i]));
            }
        }
    }
}

/// Distinct media types have distinct names.
pub proof fn lemma_names_distinct(a: MediaType, b: MediaType)
    ensures
        media_type_name(a) == media_type_name(b) <==> a == b,
{
    if a != b && media_type_name(a) == media_type_name(b) {
        lemma_parse_name_round_trip(a);
        lemma_parse_name_round_trip(b);
    }
}

/// Every media type occurs in the list of all media types.
pub proof fn lemma_all_media_types_complete(mt: MediaType)
    ensures
        all_media_types().contains(mt),
{
    let all = all_media_types();
    match mt {
        MediaType::Image => assert(all[0] == mt),
        MediaType::Video => assert(all[1] == mt),
        MediaType::Audio => assert(all[2] == mt),
        MediaType::Document => assert(all[3] == mt),
        MediaType::Unknown => assert(all[4] == mt),
    }
}

} // verus!
