//! Core library of mediary: the media, tag and media-type model, the
//! conversions between the values held in memory and the rows held in the
//! SQLite database, and the database operations built on them.

pub mod data;
pub mod scanner;
pub mod types;

pub use data::conversion::{system_time_to_unix_timestamp, unix_timestamp_to_system_time, SystemTime};
pub use types::{Media, MediaType, Tag};
