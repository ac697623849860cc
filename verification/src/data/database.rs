//! The SQLite database of mediary: its schema, the rows it holds for media and
//! tags, and the operations on them.
//!
//! Each operation is split in three: the parameters it binds are computed from
//! the media or tag by a verified encoder, the `rusqlite` call is made through
//! a trusted item with one of the statements below, whose SQL text is a public
//! constant, and what comes back is decoded or sorted into the operation's own
//! error type by verified code.

use vstd::prelude::*;

use crate::data::conversion::{
    negative_timestamp_message, system_time_error_message, system_time_to_unix_timestamp,
    unix_timestamp_of, unix_timestamp_to_system_time,
};
use crate::data::sqlite::{
    classify_sql_error, conversion_failure, execute, execute_batch, failure_error,
    last_insert_rowid, open_connection, prepare, query_map, query_row, row_get_bool, row_get_i64,
    row_get_string, sql_error_text, ColumnType, SqlFailure, SqlParam,
};
use crate::types::media::Media;
use crate::types::media_type::{
    all_media_types, lemma_all_media_types_complete, lemma_parse_name_round_trip, media_type_name,
    parse_media_type, MediaType,
};
use crate::types::tag::{tag_id_of, tag_text, tags_equal, Tag};

verus! {

/// The file name of mediary's database, in its app data directory.
pub const DB_NAME: &'static str = "mediary.db";

/// The schema of mediary's database. Every statement is guarded by
/// `IF NOT EXISTS`, so running it again changes nothing.
pub const DB_SCHEMA: &'static str = "CREATE TABLE IF NOT EXISTS media (
    id INTEGER PRIMARY KEY AUTOINCREMENT,
    path TEXT NOT NULL UNIQUE,
    media_type TEXT NOT NULL,
    size_bytes INTEGER NOT NULL,
    added_at INTEGER NOT NULL
);
CREATE TABLE IF NOT EXISTS tags (
    id INTEGER PRIMARY KEY AUTOINCREMENT,
    name TEXT NOT NULL UNIQUE,
    is_builtin BOOLEAN NOT NULL DEFAULT FALSE
);
CREATE TABLE IF NOT EXISTS media_tags (
    media_id INTEGER NOT NULL REFERENCES media (id),
    tag_id INTEGER NOT NULL REFERENCES tags (id),
    PRIMARY KEY (media_id, tag_id)
);
";

/// Switches on foreign key enforcement for a connection.
pub const FOREIGN_KEYS_PRAGMA: &'static str = "PRAGMA foreign_keys = ON";

/// Inserts the builtin tag named `?1`, unless a tag of that name is there.
pub const INSERT_BUILTIN_TAG_SQL: &'static str = "INSERT OR IGNORE INTO tags (name, is_builtin) VALUES (?1, TRUE)";

/// Inserts a media row: path, media type name, size and Unix timestamp.
pub const INSERT_MEDIA_SQL: &'static str = "INSERT INTO media (path, media_type, size_bytes, added_at) VALUES (?1, ?2, ?3, ?4)";

/// Selects the media row with path `?1`.
pub const SELECT_MEDIA_BY_PATH_SQL: &'static str = "SELECT id, path, media_type, size_bytes, added_at FROM media WHERE path = ?1";

/// Deletes the media row with path `?1`.
pub const DELETE_MEDIA_BY_PATH_SQL: &'static str = "DELETE FROM media WHERE path = ?1";

/// Inserts a custom tag named `?1`.
pub const INSERT_CUSTOM_TAG_SQL: &'static str = "INSERT INTO tags (name) VALUES (?1)";

/// Selects the tag row named `?1`.
pub const SELECT_TAG_BY_NAME_SQL: &'static str = "SELECT id, name, is_builtin FROM tags WHERE name = ?1";

/// Deletes the tag row named `?1`.
pub const DELETE_TAG_BY_NAME_SQL: &'static str = "DELETE FROM tags WHERE name = ?1";

/// Relates media `?1` to tag `?2`.
pub const INSERT_MEDIA_TAG_SQL: &'static str = "INSERT INTO media_tags (media_id, tag_id) VALUES (?1, ?2)";

/// Whether a media row with ID `?1` exists.
pub const MEDIA_EXISTS_SQL: &'static str = "SELECT EXISTS(SELECT 1 FROM media WHERE id = ?1)";

/// Selects the tags related to media `?1`.
pub const TAGS_FOR_MEDIA_SQL: &'static str = "SELECT t.id, t.name, t.is_builtin FROM media_tags mt JOIN tags t ON mt.tag_id = t.id WHERE mt.media_id = ?1";

/// Whether a tag row with ID `?1` exists.
pub const TAG_EXISTS_SQL: &'static str = "SELECT EXISTS(SELECT 1 FROM tags WHERE id = ?1)";

/// Selects the media related to tag `?1`, with the columns in the order that
/// `read_media_from_row` reads them.
pub const MEDIA_FOR_TAG_SQL: &'static str = "SELECT m.id, m.path, m.media_type, m.size_bytes, m.added_at FROM media_tags mt JOIN media m ON mt.media_id = m.id WHERE mt.tag_id = ?1";

/// Removes the relation of media `?1` to tag `?2`.
pub const DELETE_MEDIA_TAG_SQL: &'static str = "DELETE FROM media_tags WHERE media_id = ?1 AND tag_id = ?2";

/// An error that may occur on SQL insert instructions.
#[derive(Debug)]
pub enum SqliteInsertError {
    /// The item already exists.
    AlreadyExists,
    /// An SQL error.
    SqliteError(rusqlite::Error),
    /// Any other error, by its message.
    Other(String),
}

/// An error that may occur on SQL select instructions.
#[derive(Debug)]
pub enum SqliteSelectError {
    /// An SQL error.
    SqliteError(rusqlite::Error),
    /// Any other error, by its message.
    Other(String),
}

/// An error that may occur on SQL delete instructions.
#[derive(Debug)]
pub enum SqliteDeleteError {
    /// The item does not exist.
    NotFound,
    /// An SQL error.
    SqliteError(rusqlite::Error),
    /// Any other error, by its message.
    Other(String),
}

/// A column value that could not be turned into a field of a media or tag.
#[derive(Debug, Clone, PartialEq, Eq)]
pub struct ColumnError {
    /// The index of the column it is reported for.
    pub column: usize,
    /// The SQL type of that column.
    pub column_type: ColumnType,
    /// What was wrong with the value.
    pub message: String,
}

/// The message for an item whose path is already stored.
pub open spec fn already_exists_message() -> Seq<char> {
    "Item with this path already exists"@
}

/// The message for an item that does not exist.
pub open spec fn not_found_message() -> Seq<char> {
    "Item does not exist"@
}

/// The message for a string that names no media type.
pub open spec fn variant_not_found_message() -> Seq<char> {
    "Matching variant not found"@
}

/// The message for a negative size in a media row.
pub open spec fn negative_size_message() -> Seq<char> {
    "size_bytes cannot be negative"@
}

/// The message for an attempt to delete a builtin tag.
pub open spec fn builtin_tag_delete_message() -> Seq<char> {
    "Cannot delete a builtin tag"@
}

impl SqliteInsertError {
    /// The message of this error. For an SQL error it is the text that
    /// `rusqlite` gives the error.
    pub fn to_string(&self) -> (s: String)
        ensures
            *self is AlreadyExists ==> s@ == already_exists_message(),
            *self matches SqliteInsertError::Other(m) ==> s@ == m@,
    {
        match self {
            SqliteInsertError::AlreadyExists => String::from_str("Item with this path already exists"),
            SqliteInsertError::SqliteError(e) => sql_error_text(e),
            SqliteInsertError::Other(m) => m.clone(),
        }
    }
}

impl SqliteSelectError {
    /// The message of this error. For an SQL error it is the text that
    /// `rusqlite` gives the error.
    pub fn to_string(&self) -> (s: String)
        ensures
            *self matches SqliteSelectError::Other(m) ==> s@ == m@,
    {
        match self {
            SqliteSelectError::SqliteError(e) => sql_error_text(e),
            SqliteSelectError::Other(m) => m.clone(),
        }
    }
}

impl SqliteDeleteError {
    /// The message of this error. For an SQL error it is the text that
    /// `rusqlite` gives the error.
    pub fn to_string(&self) -> (s: String)
        ensures
            *self is NotFound ==> s@ == not_found_message(),
            *self matches SqliteDeleteError::Other(m) ==> s@ == m@,
    {
        match self {
            SqliteDeleteError::NotFound => String::from_str("Item does not exist"),
            SqliteDeleteError::SqliteError(e) => sql_error_text(e),
            SqliteDeleteError::Other(m) => m.clone(),
        }
    }
}

/// A parameter that holds the given text.
pub open spec fn is_text_param(p: SqlParam, s: Seq<char>) -> bool {
    p matches SqlParam::Text(t) && t@ == s
}

/// A parameter that holds the given integer.
pub open spec fn is_integer_param(p: SqlParam, i: int) -> bool {
    p matches SqlParam::Integer(j) && j == i
}

/// A parameter that holds an optional integer: SQL `NULL` for `None`.
pub open spec fn is_optional_integer_param(p: SqlParam, i: Option<i64>) -> bool {
    match i {
        Some(v) => is_integer_param(p, v as int),
        None => p is Null,
    }
}

/// A `u64` as SQLite's signed 64-bit integer, wrapping around as `as i64`
/// does.
pub open spec fn wrap_to_i64(x: u64) -> int {
    if x <= i64::MAX {
        x as int
    } else {
        x - 0x1_0000_0000_0000_0000
    }
}

/// The row stored for a media item: its path text, the name of its media
/// type, its size as a signed integer and its Unix timestamp; `None` when it
/// was added before the epoch and so has no timestamp.
pub open spec fn media_row_of(m: Media) -> Option<(Seq<char>, Seq<char>, int, int)> {
    match unix_timestamp_of(m.added_at@) {
        Some(ts) => Some((m.path@, media_type_name(m.media_type), wrap_to_i64(m.size_bytes), ts)),
        None => None,
    }
}

/// The fields decoded from the media type, size and timestamp columns of a
/// media row, or the index of the first column that holds no valid value.
pub open spec fn decode_media_columns(media_type: Seq<char>, size_bytes: int, added_at: int) -> Result<(MediaType, int, int), int> {
    match parse_media_type(media_type) {
        None => Err(2),
        Some(mt) => if size_bytes < 0 {
            Err(3)
        } else if added_at < 0 {
            Err(4)
        } else {
            Ok((mt, size_bytes, added_at))
        },
    }
}

/// A media item as it can come out of the database: it has an ID, a size that
/// fits a signed 64-bit integer, and a time at or after the epoch.
pub open spec fn media_from_database(m: Media) -> bool {
    &&& m.id is Some
    &&& m.size_bytes <= i64::MAX
    &&& m.added_at@ >= 0
}

/// A tag as it can come out of the database: it has an ID.
pub open spec fn tag_from_database(t: Tag) -> bool {
    tag_id_of(t) is Some
}

/// The name under which a builtin tag is stored.
pub open spec fn is_builtin_tag_name(name: Seq<char>) -> bool {
    exists|mt: MediaType| media_type_name(mt) == name
}

/// Sorts the error of a `rusqlite` result, keeping a success as it is.
fn classified<T>(r: Result<T, rusqlite::Error>) -> (c: Result<T, SqlFailure>)
    ensures
        r matches Ok(v) ==> c == Ok::<T, SqlFailure>(v),
        r matches Err(e) ==> c matches Err(f) && failure_error(f) == e,
{
    match r {
        Ok(v) => Ok(v),
        Err(e) => Err(classify_sql_error(e)),
    }
}

/// Get the ID of a tag.
pub fn get_tag_id(tag: &Tag) -> (id: Option<i64>)
    ensures
        id == tag_id_of(*tag),
{
    match tag {
        Tag::Builtin { id, .. } => *id,
        Tag::Custom { id, .. } => *id,
    }
}

/// A `u64` as SQLite's signed 64-bit integer, wrapping around as `as i64`
/// does.
pub fn u64_to_sql_integer(x: u64) -> (i: i64)
    ensures
        i == wrap_to_i64(x),
{
    if x <= i64::MAX as u64 {
        x as i64
    } else {
        let over: u64 = x - 0x8000_0000_0000_0000u64;
        (over as i64) + i64::MIN
    }
}

/// The parameters bound when a media item is inserted: path, media type name,
/// size and Unix timestamp. A media item added before the epoch has no
/// timestamp, and the conversion's error is returned.
pub fn media_insert_params(media: &Media) -> (r: Result<Vec<SqlParam>, crate::data::conversion::SystemTimeError>)
    ensures
        match media_row_of(*media) {
            None => r is Err,
            Some(row) => r matches Ok(p) && p.len() == 4
                && is_text_param(p[0], row.0) && is_text_param(p[1], row.1)
                && is_integer_param(p[2], row.2) && is_integer_param(p[3], row.3),
        },
{
    let added_at = match system_time_to_unix_timestamp(media.added_at) {
        Ok(ts) => ts,
        Err(e) => return Err(e),
    };
    let mut p: Vec<SqlParam> = Vec::new();
    p.push(SqlParam::Text(media.path.clone()));
    p.push(SqlParam::Text(media.media_type.to_string()));
    p.push(SqlParam::Integer(u64_to_sql_integer(media.size_bytes)));
    p.push(SqlParam::Integer(added_at));
    Ok(p)
}

/// Builds a media item from the columns of a media row: ID, path, media type
/// name, size and Unix timestamp. A column that holds no valid value gives a
/// `ColumnError` for it; the media type is checked first, then the size, then
/// the timestamp.
pub fn media_from_columns(id: i64, path: String, media_type: String, size_bytes: i64, added_at: i64) -> (r: Result<Media, ColumnError>)
    ensures
        match decode_media_columns(media_type@, size_bytes as int, added_at as int) {
            Ok(fields) => r matches Ok(m) && m.id == Some(id) && m.path@ == path@
                && m.media_type == fields.0 && m.size_bytes == fields.1 && m.added_at@ == fields.2,
            Err(col) => r matches Err(e) && e.column == col && (
                if col == 2 {
                    e.column_type == ColumnType::Text && e.message@ == variant_not_found_message()
                } else if col == 3 {
                    e.column_type == ColumnType::Integer && e.message@ == negative_size_message()
                } else {
                    e.column_type == ColumnType::Integer && e.message@ == negative_timestamp_message()
                }),
        },
{
    let mt = match MediaType::from_str(media_type.as_str()) {
        Ok(mt) => mt,
        Err(_) => {
            return Err(
                ColumnError {
                    column: 2,
                    column_type: ColumnType::Text,
                    message: String::from_str("Matching variant not found"),
                },
            );
        },
    };
    if size_bytes < 0 {
        return Err(
            ColumnError {
                column: 3,
                column_type: ColumnType::Integer,
                message: String::from_str("size_bytes cannot be negative"),
            },
        );
    }
    let added = match unix_timestamp_to_system_time(added_at) {
        Ok(t) => t,
        Err(msg) => {
            return Err(ColumnError { column: 4, column_type: ColumnType::Integer, message: msg });
        },
    };
    Ok(Media { id: Some(id), path, media_type: mt, size_bytes: size_bytes as u64, added_at: added })
}

/// The tag decoded from the columns of a tag row: a builtin tag takes the
/// media type its name parses to, a custom tag keeps its name; `None` when a
/// builtin tag's name names no media type.
pub open spec fn decode_tag_media_type(name: Seq<char>, is_builtin: bool) -> Option<Option<MediaType>> {
    if is_builtin {
        match parse_media_type(name) {
            Some(mt) => Some(Some(mt)),
            None => None,
        }
    } else {
        Some(None)
    }
}

/// Builds a tag from the columns of a tag row: ID, name and whether it is
/// builtin. A builtin tag whose name names no media type gives a
/// `ColumnError` for column 2.
pub fn tag_from_columns(id: i64, name: String, is_builtin: bool) -> (r: Result<Tag, ColumnError>)
    ensures
        match decode_tag_media_type(name@, is_builtin) {
            Some(Some(mt)) => r == Ok::<Tag, ColumnError>(Tag::Builtin { id: Some(id), media_type: mt }),
            Some(None) => r matches Ok(Tag::Custom { id: tid, name: n }) && tid == Some(id) && n@ == name@,
            None => r matches Err(e) && e.column == 2 && e.column_type == ColumnType::Text
                && e.message@ == variant_not_found_message(),
        },
{
    if is_builtin {
        match MediaType::from_str(name.as_str()) {
            Ok(mt) => Ok(Tag::Builtin { id: Some(id), media_type: mt }),
            Err(_) => Err(
                ColumnError {
                    column: 2,
                    column_type: ColumnType::Text,
                    message: String::from_str("Matching variant not found"),
                },
            ),
        }
    } else {
        Ok(Tag::Custom { id: Some(id), name })
    }
}

/// Reads a media item from a row of `id, path, media_type, size_bytes,
/// added_at`. A column that cannot be read, or holds no valid value, gives an
/// error.
pub fn read_media_from_row(row: &rusqlite::Row<'_>) -> (r: Result<Media, rusqlite::Error>)
    ensures
        r matches Ok(m) ==> media_from_database(m),
{
    let id = match row_get_i64(row, 0) {
        Ok(v) => v,
        Err(e) => return Err(e),
    };
    let path = match row_get_string(row, 1) {
        Ok(v) => v,
        Err(e) => return Err(e),
    };
    let media_type = match row_get_string(row, 2) {
        Ok(v) => v,
        Err(e) => return Err(e),
    };
    let size_bytes = match row_get_i64(row, 3) {
        Ok(v) => v,
        Err(e) => return Err(e),
    };
    let added_at = match row_get_i64(row, 4) {
        Ok(v) => v,
        Err(e) => return Err(e),
    };
    match media_from_columns(id, path, media_type, size_bytes, added_at) {
        Ok(m) => Ok(m),
        Err(ce) => Err(conversion_failure(ce.column, ce.column_type, ce.message)),
    }
}

/// Reads a tag from a row of `id, name, is_builtin`. A column that cannot be
/// read, or a builtin tag whose name names no media type, gives an error.
pub fn read_tag_from_row(row: &rusqlite::Row<'_>) -> (r: Result<Tag, rusqlite::Error>)
    ensures
        r matches Ok(t) ==> tag_from_database(t),
{
    let id = match row_get_i64(row, 0) {
        Ok(v) => v,
        Err(e) => return Err(e),
    };
    let name = match row_get_string(row, 1) {
        Ok(v) => v,
        Err(e) => return Err(e),
    };
    let is_builtin = match row_get_bool(row, 2) {
        Ok(v) => v,
        Err(e) => return Err(e),
    };
    match tag_from_columns(id, name, is_builtin) {
        Ok(t) => Ok(t),
        Err(ce) => Err(conversion_failure(ce.column, ce.column_type, ce.message)),
    }
}

/// Reads the boolean in the first column of a row.
fn read_first_bool(row: &rusqlite::Row<'_>) -> (r: Result<bool, rusqlite::Error>) {
    row_get_bool(row, 0)
}

/// What an `INSERT` comes to: success, `AlreadyExists` for a constraint
/// violation (a duplicate path or name), or the SQL error.
pub fn insert_result(outcome: Result<usize, SqlFailure>) -> (r: Result<(), SqliteInsertError>)
    ensures
        match outcome {
            Ok(_) => r is Ok,
            Err(SqlFailure::ConstraintViolation(_)) => r matches Err(SqliteInsertError::AlreadyExists),
            Err(f) => r matches Err(SqliteInsertError::SqliteError(e)) && e == failure_error(f),
        },
{
    match outcome {
        Ok(_) => Ok(()),
        Err(SqlFailure::ConstraintViolation(_)) => Err(SqliteInsertError::AlreadyExists),
        Err(SqlFailure::NoRows(e)) => Err(SqliteInsertError::SqliteError(e)),
        Err(SqlFailure::Other(e)) => Err(SqliteInsertError::SqliteError(e)),
    }
}

/// What a single-row `SELECT` comes to: the row's value, `None` when no row
/// matched, or the SQL error.
pub fn select_result<T>(outcome: Result<T, SqlFailure>) -> (r: Result<Option<T>, SqliteSelectError>)
    ensures
        match outcome {
            Ok(v) => r == Ok::<Option<T>, SqliteSelectError>(Some(v)),
            Err(SqlFailure::NoRows(_)) => r == Ok::<Option<T>, SqliteSelectError>(None),
            Err(f) => r matches Err(SqliteSelectError::SqliteError(e)) && e == failure_error(f),
        },
{
    match outcome {
        Ok(v) => Ok(Some(v)),
        Err(SqlFailure::NoRows(_)) => Ok(None),
        Err(SqlFailure::ConstraintViolation(e)) => Err(SqliteSelectError::SqliteError(e)),
        Err(SqlFailure::Other(e)) => Err(SqliteSelectError::SqliteError(e)),
    }
}

/// What a `DELETE` comes to: `NotFound` when no row changed, success when
/// some did, or the SQL error.
pub fn delete_result(outcome: Result<usize, rusqlite::Error>) -> (r: Result<(), SqliteDeleteError>)
    ensures
        match outcome {
            Ok(n) => if n == 0 {
                r matches Err(SqliteDeleteError::NotFound)
            } else {
                r is Ok
            },
            Err(e) => r matches Err(SqliteDeleteError::SqliteError(e2)) && e2 == e,
        },
{
    match outcome {
        Ok(0) => Err(SqliteDeleteError::NotFound),
        Ok(_) => Ok(()),
        Err(e) => Err(SqliteDeleteError::SqliteError(e)),
    }
}

/// Gathers the values of rows read one by one: all of them in order, or the
/// first error among them.
pub fn collect_rows<T>(rows: Vec<Result<T, rusqlite::Error>>) -> (r: Result<Vec<T>, rusqlite::Error>)
    ensures
        (forall|i: int| 0 <= i < rows.len() ==> rows[i] is Ok) <==> r is Ok,
        r matches Ok(v) ==> v.len() == rows.len()
            && forall|i: int| 0 <= i < rows.len() ==> #[trigger] rows[i] == Ok::<T, rusqlite::Error>(v[i]),
        r matches Err(e) ==> exists|i: int| 0 <= i < rows.len() && rows[i] == Err::<T, rusqlite::Error>(e)
            && forall|j: int| 0 <= j < i ==> rows[j] is Ok,
{
    let ghost all = rows@;
    let mut out: Vec<T> = Vec::new();
    for row in it: rows.into_iter()
        invariant
            it.seq() == all,
            out.len() == it.index(),
            forall|j: int| 0 <= j < it.index() ==> #[trigger] all[j] == Ok::<T, rusqlite::Error>(out[j]),
    {
        match row {
            Ok(v) => out.push(v),
            Err(e) => {
                assert(all[it.index() as int] == Err::<T, rusqlite::Error>(e));
                return Err(e);
            },
        }
    }
    Ok(out)
}

/// What rows read one by one come to: all their values in order, or the
/// first error among them.
pub open spec fn rows_collect_to<T>(rows: Seq<Result<T, rusqlite::Error>>, r: Result<Seq<T>, rusqlite::Error>) -> bool {
    match r {
        Ok(v) => v.len() == rows.len()
            && forall|i: int| 0 <= i < rows.len() ==> #[trigger] rows[i] == Ok::<T, rusqlite::Error>(v[i]),
        Err(e) => exists|i: int| 0 <= i < rows.len() && #[trigger] rows[i] == Err::<T, rusqlite::Error>(e)
            && forall|j: int| 0 <= j < i ==> rows[j] is Ok,
    }
}

/// What a list lookup comes to, given whether the item it is for exists and
/// the rows its query read: `None` when the item does not exist; otherwise
/// the values of all the rows, in order, or the first error among them.
pub fn list_result<T>(exists: bool, rows: Vec<Result<T, rusqlite::Error>>) -> (r: Result<Option<Vec<T>>, SqliteSelectError>)
    ensures
        !exists ==> r matches Ok(None),
        exists ==> match r {
            Ok(Some(v)) => rows_collect_to(rows@, Ok(v@)),
            Err(SqliteSelectError::SqliteError(e)) => rows_collect_to(rows@, Err(e)),
            _ => false,
        },
{
    if !exists {
        return Ok(None);
    }
    match collect_rows(rows) {
        Ok(v) => Ok(Some(v)),
        Err(e) => Err(SqliteSelectError::SqliteError(e)),
    }
}

/// Whether a name is the name under which a builtin tag is stored.
pub fn is_builtin_name(name: &str) -> (r: bool)
    ensures
        r == is_builtin_tag_name(name@),
{
    let all = MediaType::all();
    let wanted = String::from_str(name);
    let mut i: usize = 0;
    while i < all.len()
        invariant
            all@ == all_media_types(),
            wanted@ == name@,
            i <= all.len(),
            forall|j: int| 0 <= j < i ==> media_type_name(#[trigger] all@[j]) != name@,
        decreases all.len() - i,
    {
        let candidate = all[i].to_string();
        if candidate.eq(&wanted) {
            return true;
        }
        i = i + 1;
    }
    assert forall|mt: MediaType| media_type_name(mt) != name@ by {
        lemma_all_media_types_complete(mt);
        let k = choose|k: int| 0 <= k < all@.len() && all@[k] == mt;
        assert(media_type_name(all@[k]) != name@);
    }
    false
}

/// Connect to the database at the given path, with foreign key enforcement
/// switched on.
///
/// It runs `FOREIGN_KEYS_PRAGMA` on the opened connection.
pub fn connect_at(path: &str) -> (r: Result<rusqlite::Connection, rusqlite::Error>) {
    let conn = match open_connection(path) {
        Ok(c) => c,
        Err(e) => return Err(e),
    };
    match execute(&conn, FOREIGN_KEYS_PRAGMA, Vec::new()) {
        Ok(_) => Ok(conn),
        Err(e) => Err(e),
    }
}

/// Creates the DB schema (`DB_SCHEMA`); tables that exist are left as they
/// are.
///
/// It runs `DB_SCHEMA` as one batch.
pub fn create_schema(conn: &rusqlite::Connection) -> (r: Result<(), rusqlite::Error>) {
    execute_batch(conn, DB_SCHEMA)
}

/// The parameters of the `INSERT_BUILTIN_TAG_SQL` statements that seed the
/// builtin tags: one per media type, in the order of `MediaType::all`, each
/// binding that media type's name.
pub fn builtin_tag_params() -> (v: Vec<Vec<SqlParam>>)
    ensures
        v.len() == all_media_types().len(),
        forall|i: int| 0 <= i < v.len() ==> (#[trigger] v[i]).len() == 1
            && is_text_param(v[i][0], media_type_name(all_media_types()[i])),
{
    let all = MediaType::all();
    let mut v: Vec<Vec<SqlParam>> = Vec::new();
    let mut i: usize = 0;
    while i < all.len()
        invariant
            all@ == all_media_types(),
            i <= all.len(),
            v.len() == i,
            forall|j: int| 0 <= j < i ==> (#[trigger] v[j]).len() == 1
                && is_text_param(v[j][0], media_type_name(all_media_types()[j])),
        decreases all.len() - i,
    {
        let mut params: Vec<SqlParam> = Vec::new();
        params.push(SqlParam::Text(all[i].to_string()));
        v.push(params);
        i = i + 1;
    }
    v
}

/// Ensures the builtin tags exist in the database: runs
/// `INSERT_BUILTIN_TAG_SQL` with each of `builtin_tag_params`, in order, so
/// that a tag named after each media type is there. Stops at the first error.
pub fn ensure_builtin_tags_exist_in_db(conn: &rusqlite::Connection) -> (r: Result<(), rusqlite::Error>) {
    let seeds = builtin_tag_params();
    for params in seeds.into_iter() {
        match execute(conn, INSERT_BUILTIN_TAG_SQL, params) {
            Ok(_) => {},
            Err(e) => return Err(e),
        }
    }
    Ok(())
}

/// Initialize the database at the given path: connect, create the schema and
/// insert the builtin tags.
pub fn init_db_at(path: &str) -> (r: Result<rusqlite::Connection, rusqlite::Error>) {
    let conn = match connect_at(path) {
        Ok(c) => c,
        Err(e) => return Err(e),
    };
    match create_schema(&conn) {
        Ok(()) => {},
        Err(e) => return Err(e),
    }
    match ensure_builtin_tags_exist_in_db(&conn) {
        Ok(()) => Ok(conn),
        Err(e) => Err(e),
    }
}

/// The single parameter of a statement that takes one text.
pub fn text_params(s: &str) -> (p: Vec<SqlParam>)
    ensures
        p.len() == 1,
        is_text_param(p[0], s@),
{
    let mut p: Vec<SqlParam> = Vec::new();
    p.push(SqlParam::Text(String::from_str(s)));
    p
}

/// The single parameter of a statement that takes one integer.
pub fn integer_params(i: i64) -> (p: Vec<SqlParam>)
    ensures
        p.len() == 1,
        is_integer_param(p[0], i as int),
{
    let mut p: Vec<SqlParam> = Vec::new();
    p.push(SqlParam::Integer(i));
    p
}

/// The parameters of a statement on a media-tag relation: the media's ID
/// (`NULL` when it has none) and the tag's ID.
pub fn media_tag_params(media_id: Option<i64>, tag_id: i64) -> (p: Vec<SqlParam>)
    ensures
        p.len() == 2,
        is_optional_integer_param(p[0], media_id),
        is_integer_param(p[1], tag_id as int),
{
    let mut p: Vec<SqlParam> = Vec::new();
    match media_id {
        Some(id) => p.push(SqlParam::Integer(id)),
        None => p.push(SqlParam::Null),
    }
    p.push(SqlParam::Integer(tag_id));
    p
}

/// Insert a media item into the database, returning the row ID of the
/// inserted item. A media item added before the epoch cannot be stored and
/// gives `Other` with the time conversion's message; a path already stored
/// gives `AlreadyExists`.
///
/// It runs `INSERT_MEDIA_SQL` with `media_insert_params(media)`.
pub fn insert_media(conn: &rusqlite::Connection, media: &Media) -> (r: Result<i64, SqliteInsertError>)
    ensures
        media_row_of(*media) is None <==> r matches Err(SqliteInsertError::Other(_)),
        r matches Err(SqliteInsertError::Other(m)) ==> m@ == system_time_error_message(),
{
    let params = match media_insert_params(media) {
        Ok(p) => p,
        Err(e) => return Err(SqliteInsertError::Other(e.to_string())),
    };
    let res = execute(
        conn,
        INSERT_MEDIA_SQL,
        params,
    );
    match insert_result(classified(res)) {
        Ok(()) => Ok(last_insert_rowid(conn)),
        Err(e) => Err(e),
    }
}

/// Get a media item from a file path; `None` when no media has that path.
///
/// It runs `SELECT_MEDIA_BY_PATH_SQL` with `text_params(path)`.
pub fn get_media_from_path(conn: &rusqlite::Connection, path: &str) -> (r: Result<Option<Media>, SqliteSelectError>)
    ensures
        r matches Ok(Some(m)) ==> media_from_database(m),
        !(r matches Err(SqliteSelectError::Other(_))),
{
    let res = query_row(
        conn,
        SELECT_MEDIA_BY_PATH_SQL,
        text_params(path),
        read_media_from_row,
    );
    select_result(classified(res))
}

/// Delete a media item from a file path; `NotFound` when no media has that
/// path.
///
/// It runs `DELETE_MEDIA_BY_PATH_SQL` with `text_params(path)`.
pub fn delete_media_from_path(conn: &rusqlite::Connection, path: &str) -> (r: Result<(), SqliteDeleteError>)
    ensures
        !(r matches Err(SqliteDeleteError::Other(_))),
{
    let res = execute(conn, DELETE_MEDIA_BY_PATH_SQL, text_params(path));
    delete_result(res)
}

/// Insert a custom tag into the database, returning the row ID of the
/// inserted tag. A builtin tag is always there already and gives
/// `AlreadyExists`, as does a custom tag whose name is already stored.
///
/// It runs `INSERT_CUSTOM_TAG_SQL` with `text_params` of the name.
pub fn insert_custom_tag(conn: &rusqlite::Connection, tag: &Tag) -> (r: Result<i64, SqliteInsertError>)
    ensures
        *tag is Builtin ==> r matches Err(SqliteInsertError::AlreadyExists),
        !(r matches Err(SqliteInsertError::Other(_))),
{
    match tag {
        Tag::Builtin { .. } => Err(SqliteInsertError::AlreadyExists),
        Tag::Custom { name, .. } => {
            let res = execute(conn, INSERT_CUSTOM_TAG_SQL, text_params(name.as_str()));
            match insert_result(classified(res)) {
                Ok(()) => Ok(last_insert_rowid(conn)),
                Err(e) => Err(e),
            }
        },
    }
}

/// Get a tag from its name; `None` when no tag has that name.
///
/// It runs `SELECT_TAG_BY_NAME_SQL` with `text_params(name)`.
pub fn get_tag_from_name(conn: &rusqlite::Connection, name: &str) -> (r: Result<Option<Tag>, SqliteSelectError>)
    ensures
        r matches Ok(Some(t)) ==> tag_from_database(t),
        !(r matches Err(SqliteSelectError::Other(_))),
{
    let res = query_row(
        conn,
        SELECT_TAG_BY_NAME_SQL,
        text_params(name),
        read_tag_from_row,
    );
    select_result(classified(res))
}

/// Delete a tag from its name. The name of a builtin tag is refused with
/// `Other` and the message "Cannot delete a builtin tag", before the database
/// is touched; `NotFound` when no tag has that name.
///
/// It runs `DELETE_TAG_BY_NAME_SQL` with `text_params(name)`.
pub fn delete_tag_from_name(conn: &rusqlite::Connection, name: &str) -> (r: Result<(), SqliteDeleteError>)
    ensures
        is_builtin_tag_name(name@) <==> r matches Err(SqliteDeleteError::Other(_)),
        r matches Err(SqliteDeleteError::Other(m)) ==> m@ == builtin_tag_delete_message(),
{
    if is_builtin_name(name) {
        return Err(SqliteDeleteError::Other(String::from_str("Cannot delete a builtin tag")));
    }
    let res = execute(conn, DELETE_TAG_BY_NAME_SQL, text_params(name));
    delete_result(res)
}

/// Tag a media item, returning the row ID of the new relation;
/// `AlreadyExists` when the media already has the tag. The tag must have an
/// ID.
///
/// It runs `INSERT_MEDIA_TAG_SQL` with `media_tag_params`.
pub fn tag_media(conn: &rusqlite::Connection, media: &Media, tag: &Tag) -> (r: Result<i64, SqliteInsertError>)
    requires
        tag_id_of(*tag) is Some,
    ensures
        !(r matches Err(SqliteInsertError::Other(_))),
{
    let tag_id = match get_tag_id(tag) {
        Some(id) => id,
        None => return Err(SqliteInsertError::AlreadyExists),
    };
    let res = execute(
        conn,
        INSERT_MEDIA_TAG_SQL,
        media_tag_params(media.id, tag_id),
    );
    match insert_result(classified(res)) {
        Ok(()) => Ok(last_insert_rowid(conn)),
        Err(e) => Err(e),
    }
}

/// Get the tags for a media item; `None` when the media has no ID or no media
/// has its ID.
///
/// It runs `MEDIA_EXISTS_SQL`, then `TAGS_FOR_MEDIA_SQL`, each with
/// `integer_params` of the media's ID, and hands both answers to `list_result`.
pub fn get_tags_for_media(conn: &rusqlite::Connection, media: &Media) -> (r: Result<Option<Vec<Tag>>, SqliteSelectError>)
    ensures
        media.id is None ==> r matches Ok(None),
        r matches Ok(Some(tags)) ==> forall|i: int| 0 <= i < tags.len() ==> tag_from_database(#[trigger] tags[i]),
        !(r matches Err(SqliteSelectError::Other(_))),
{
    let media_id = match media.id {
        Some(id) => id,
        None => return Ok(None),
    };
    let exists = match query_row(
        conn,
        MEDIA_EXISTS_SQL,
        integer_params(media_id),
        read_first_bool,
    ) {
        Ok(b) => b,
        Err(e) => return Err(SqliteSelectError::SqliteError(e)),
    };
    if !exists {
        return list_result(false, Vec::new());
    }
    let mut stmt = match prepare(conn, TAGS_FOR_MEDIA_SQL) {
        Ok(s) => s,
        Err(e) => return Err(SqliteSelectError::SqliteError(e)),
    };
    let rows = match query_map(&mut stmt, integer_params(media_id), read_tag_from_row) {
        Ok(rows) => rows,
        Err(e) => return Err(SqliteSelectError::SqliteError(e)),
    };
    let ghost all = rows@;
    let r = list_result(true, rows);
    if let Ok(Some(tags)) = &r {
        assert forall|i: int| 0 <= i < tags.len() implies tag_from_database(#[trigger] tags[i]) by {
            assert(all[i] == Ok::<Tag, rusqlite::Error>(tags[i]));
        }
    }
    r
}

/// Get the media for a tag; `None` when the tag has no ID or no tag has its
/// ID.
///
/// It runs `TAG_EXISTS_SQL`, then `MEDIA_FOR_TAG_SQL`, each with
/// `integer_params` of the tag's ID, and hands both answers to `list_result`.
pub fn get_media_for_tag(conn: &rusqlite::Connection, tag: &Tag) -> (r: Result<Option<Vec<Media>>, SqliteSelectError>)
    ensures
        tag_id_of(*tag) is None ==> r matches Ok(None),
        r matches Ok(Some(media)) ==> forall|i: int| 0 <= i < media.len() ==> media_from_database(#[trigger] media[i]),
        !(r matches Err(SqliteSelectError::Other(_))),
{
    let tag_id = match get_tag_id(tag) {
        Some(id) => id,
        None => return Ok(None),
    };
    let exists = match query_row(
        conn,
        TAG_EXISTS_SQL,
        integer_params(tag_id),
        read_first_bool,
    ) {
        Ok(b) => b,
        Err(e) => return Err(SqliteSelectError::SqliteError(e)),
    };
    if !exists {
        return list_result(false, Vec::new());
    }
    let mut stmt = match prepare(conn, MEDIA_FOR_TAG_SQL) {
        Ok(s) => s,
        Err(e) => return Err(SqliteSelectError::SqliteError(e)),
    };
    let rows = match query_map(&mut stmt, integer_params(tag_id), read_media_from_row) {
        Ok(rows) => rows,
        Err(e) => return Err(SqliteSelectError::SqliteError(e)),
    };
    let ghost all = rows@;
    let r = list_result(true, rows);
    if let Ok(Some(media)) = &r {
        assert forall|i: int| 0 <= i < media.len() implies media_from_database(#[trigger] media[i]) by {
            assert(all[i] == Ok::<Media, rusqlite::Error>(media[i]));
        }
    }
    r
}

/// Untag a media item; `NotFound` when the media did not have the tag. The
/// tag must have an ID.
///
/// It runs `DELETE_MEDIA_TAG_SQL` with `media_tag_params`.
pub fn untag_media(conn: &rusqlite::Connection, media: &Media, tag: &Tag) -> (r: Result<(), SqliteDeleteError>)
    requires
        tag_id_of(*tag) is Some,
    ensures
        !(r matches Err(SqliteDeleteError::Other(_))),
{
    let tag_id = match get_tag_id(tag) {
        Some(id) => id,
        None => return Err(SqliteDeleteError::NotFound),
    };
    let res = execute(
        conn,
        DELETE_MEDIA_TAG_SQL,
        media_tag_params(media.id, tag_id),
    );
    delete_result(res)
}

/// The row stored for a tag: its name (a builtin tag's is the name of its
/// media type) and whether it is builtin.
pub open spec fn tag_row_of(t: Tag) -> (Seq<char>, bool) {
    (tag_text(t), t is Builtin)
}

/// The tag decoded from a tag row with the given ID, when its columns hold
/// valid values.
pub open spec fn decode_tag_row(id: i64, name: Seq<char>, is_builtin: bool, t: Tag) -> bool {
    match decode_tag_media_type(name, is_builtin) {
        Some(Some(mt)) => t == Tag::Builtin { id: Some(id), media_type: mt },
        Some(None) => t matches Tag::Custom { id: tid, name: n } && tid == Some(id) && n@ == name,
        None => false,
    }
}

/// What is written for a media item reads back as it was: the row stored for
/// a media item added at or after the epoch, whose size fits a signed 64-bit
/// integer, decodes to its path, media type, size and time.
pub proof fn lemma_media_row_round_trip(m: Media)
    requires
        m.added_at@ >= 0,
        m.size_bytes <= i64::MAX,
    ensures
        media_row_of(m) matches Some(row) && row.0 == m.path@
            && decode_media_columns(row.1, row.2, row.3)
                == Ok::<(MediaType, int, int), int>((m.media_type, m.size_bytes as int, m.added_at@)),
{
    lemma_parse_name_round_trip(m.media_type);
}

/// A size beyond the signed 64-bit range wraps to a negative integer when it
/// is written, and so cannot be read back: the size column is reported.
pub proof fn lemma_oversized_media_unreadable(m: Media)
    requires
        m.added_at@ >= 0,
        m.size_bytes > i64::MAX,
    ensures
        media_row_of(m) matches Some(row)
            && decode_media_columns(row.1, row.2, row.3) == Err::<(MediaType, int, int), int>(3),
{
    lemma_parse_name_round_trip(m.media_type);
}

/// Every media item decoded from a row is one that can come out of the
/// database.
pub proof fn lemma_decoded_media_from_database(id: i64, media_type: Seq<char>, size_bytes: i64, added_at: i64, m: Media)
    requires
        decode_media_columns(media_type, size_bytes as int, added_at as int) matches Ok(f)
            && m.id == Some(id) && m.media_type == f.0 && m.size_bytes == f.1 && m.added_at@ == f.2,
    ensures
        media_from_database(m),
{
}

/// What is written for a tag reads back as an equal tag, with the ID of its
/// row.
pub proof fn lemma_tag_row_round_trip(t: Tag, id: i64, back: Tag)
    requires
        decode_tag_row(id, tag_row_of(t).0, tag_row_of(t).1, back),
    ensures
        tags_equal(t, back),
        tag_id_of(back) == Some(id),
{
    if let Tag::Builtin { media_type, .. } = t {
        lemma_parse_name_round_trip(media_type);
    }
}

/// The row of every tag decodes: a builtin tag's stored name always names its
/// media type again.
pub proof fn lemma_tag_row_decodes(t: Tag)
    ensures
        decode_tag_media_type(tag_row_of(t).0, tag_row_of(t).1) is Some,
{
    if let Tag::Builtin { media_type, .. } = t {
        lemma_parse_name_round_trip(media_type);
    }
}

/// The stored name of every builtin tag is refused by `delete_tag_from_name`.
pub proof fn lemma_builtin_tags_undeletable(mt: MediaType)
    ensures
        is_builtin_tag_name(media_type_name(mt)),
        is_builtin_tag_name(tag_row_of(Tag::Builtin { id: None, media_type: mt }).0),
{
}

} // verus!
