//! The values that mediary keeps track of: media files, their types and tags.

pub mod media;
pub mod media_type;
pub mod tag;

pub use media::Media;
pub use media_type::MediaType;
pub use tag::Tag;
