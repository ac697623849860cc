//! The calls into `rusqlite` that the database layer makes, each behind a
//! trusted item. The values stored in the database are not modelled: what a
//! call reads back depends on the file on disk, so these items state what
//! holds of every outcome, and the verified code around them does the rest.

use rusqlite::types::Value;
use vstd::prelude::*;

verus! {

#[verifier::external_type_specification]
#[verifier::external_body]
pub struct ExConnection(rusqlite::Connection);

#[verifier::external_type_specification]
#[verifier::external_body]
pub struct ExSqliteError(rusqlite::Error);

#[verifier::external_type_specification]
#[verifier::external_body]
pub struct ExRow<'stmt>(rusqlite::Row<'stmt>);

#[verifier::external_type_specification]
#[verifier::external_body]
pub struct ExStatement<'conn>(rusqlite::Statement<'conn>);

/// A parameter bound to a placeholder of an SQL statement.
#[derive(Debug, Clone, PartialEq, Eq)]
pub enum SqlParam {
    /// SQL `NULL`.
    Null,
    /// An SQL integer.
    Integer(i64),
    /// An SQL text value.
    Text(String),
}

/// The column type named in a conversion error.
#[derive(Debug, Clone, Copy, PartialEq, Eq, Structural)]
pub enum ColumnType {
    /// An SQL integer column.
    Integer,
    /// An SQL text column.
    Text,
}

/// An error of `rusqlite`, sorted by what the database layer makes of it.
#[derive(Debug)]
pub enum SqlFailure {
    /// SQLite reported a constraint violation (`SQLITE_CONSTRAINT`), such as a
    /// duplicate value in a `UNIQUE` column.
    ConstraintViolation(rusqlite::Error),
    /// A query that was expected to return a row returned none.
    NoRows(rusqlite::Error),
    /// Any other error.
    Other(rusqlite::Error),
}

/// The `rusqlite` error that a failure holds.
pub open spec fn failure_error(f: SqlFailure) -> rusqlite::Error {
    match f {
        SqlFailure::ConstraintViolation(e) => e,
        SqlFailure::NoRows(e) => e,
        SqlFailure::Other(e) => e,
    }
}

/// Sorts a `rusqlite::Error`: `SqliteFailure` whose code is
/// `ErrorCode::ConstraintViolation` becomes `ConstraintViolation`,
/// `QueryReturnedNoRows` becomes `NoRows`, every other error `Other`. The
/// contract claims that the error is carried unchanged; which variant it lands
/// in depends on the error's contents, which are opaque here, and is left
/// unsaid.
#[verifier::external_body]
pub(crate) fn classify_sql_error(e: rusqlite::Error) -> (f: SqlFailure)
    ensures
        failure_error(f) == e,
{
    let constraint = matches!(&e, rusqlite::Error::SqliteFailure(c, _)
        if c.code == rusqlite::ErrorCode::ConstraintViolation);
    let no_rows = matches!(&e, rusqlite::Error::QueryReturnedNoRows);
    if constraint {
        SqlFailure::ConstraintViolation(e)
    } else if no_rows {
        SqlFailure::NoRows(e)
    } else {
        SqlFailure::Other(e)
    }
}

/// `rusqlite::Connection::open`: opens (creating if needed) the database file
/// at `path`. Whether it succeeds depends on the file system; nothing is
/// promised of the outcome.
#[verifier::external_body]
pub(crate) fn open_connection(path: &str) -> Result<rusqlite::Connection, rusqlite::Error> {
    rusqlite::Connection::open(path)
}

/// `rusqlite::Connection::execute`: runs one SQL statement with the given
/// parameters bound in order, each converted variant for variant into
/// `rusqlite::types::Value` (`Null`, `Integer`, `Text`) and handed over through
/// `rusqlite::params_from_iter`. On
/// success it returns the number of rows changed; that number depends on the
/// database and is left unsaid.
#[verifier::external_body]
pub(crate) fn execute(conn: &rusqlite::Connection, sql: &str, params: Vec<SqlParam>) -> Result<usize, rusqlite::Error> {
    let values = params.into_iter().map(|p| match p {
        SqlParam::Null => Value::Null,
        SqlParam::Integer(i) => Value::Integer(i),
        SqlParam::Text(s) => Value::Text(s),
    });
    conn.execute(sql, rusqlite::params_from_iter(values))
}

/// `rusqlite::Connection::execute_batch`: runs every SQL statement of `sql`.
/// The outcome depends on the database; nothing is promised of it.
#[verifier::external_body]
pub(crate) fn execute_batch(conn: &rusqlite::Connection, sql: &str) -> Result<(), rusqlite::Error> {
    conn.execute_batch(sql)
}

/// `rusqlite::Connection::last_insert_rowid`: the row ID of the most recent
/// successful `INSERT` on this connection. It depends on the database and is
/// left unsaid.
#[verifier::external_body]
pub(crate) fn last_insert_rowid(conn: &rusqlite::Connection) -> i64 {
    conn.last_insert_rowid()
}

/// `rusqlite::Connection::query_row`: runs a query with the given parameters
/// bound in order (converted as for `execute`) and hands its first row to `f`. The contract claims that
/// `f` is only called on rows, and that a value returned is one that `f`
/// produced; which row that was depends on the database.
#[verifier::external_body]
pub(crate) fn query_row<T, F>(conn: &rusqlite::Connection, sql: &str, params: Vec<SqlParam>, f: F) -> (r: Result<T, rusqlite::Error>)
    where
        F: for <'a> Fn(&rusqlite::Row<'a>) -> Result<T, rusqlite::Error>,
    requires
        forall|row: &rusqlite::Row| #[trigger] f.requires((row,)),
    ensures
        r matches Ok(v) ==> exists|row: &rusqlite::Row| #[trigger] f.ensures((row,), Ok::<T, rusqlite::Error>(v)),
{
    let values = params.into_iter().map(|p| match p {
        SqlParam::Null => Value::Null,
        SqlParam::Integer(i) => Value::Integer(i),
        SqlParam::Text(s) => Value::Text(s),
    });
    conn.query_row(sql, rusqlite::params_from_iter(values), f)
}

/// `rusqlite::Connection::prepare`: compiles one SQL statement. Whether it
/// compiles depends on the database's schema; nothing is promised.
#[verifier::external_body]
pub(crate) fn prepare<'conn>(conn: &'conn rusqlite::Connection, sql: &str) -> Result<rusqlite::Statement<'conn>, rusqlite::Error> {
    conn.prepare(sql)
}

/// `rusqlite::Statement::query_map`: runs a prepared query with the given
/// parameters bound in order (converted as for `execute`), hands each row to `f` and collects what the rows
/// gave, in order; stepping to a row may also fail with an error of its own.
/// The contract claims that `f` is only called on rows and that each value
/// collected is one that `f` produced; how many rows there are depends on the
/// database.
#[verifier::external_body]
pub(crate) fn query_map<T, F>(stmt: &mut rusqlite::Statement<'_>, params: Vec<SqlParam>, f: F) -> (r: Result<Vec<Result<T, rusqlite::Error>>, rusqlite::Error>)
    where
        F: for <'a> Fn(&rusqlite::Row<'a>) -> Result<T, rusqlite::Error>,
    requires
        forall|row: &rusqlite::Row| #[trigger] f.requires((row,)),
    ensures
        r matches Ok(rows) ==> forall|i: int| 0 <= i < rows.len() ==> (#[trigger] rows[i] matches Ok(v)
            ==> exists|row: &rusqlite::Row| #[trigger] f.ensures((row,), Ok::<T, rusqlite::Error>(v))),
{
    let values = params.into_iter().map(|p| match p {
        SqlParam::Null => Value::Null,
        SqlParam::Integer(i) => Value::Integer(i),
        SqlParam::Text(s) => Value::Text(s),
    });
    let rows = stmt.query_map(rusqlite::params_from_iter(values), f)?;
    Ok(rows.collect())
}

/// `rusqlite::Row::get` for an `i64` column. The value depends on the row;
/// nothing is promised of it.
#[verifier::external_body]
pub(crate) fn row_get_i64(row: &rusqlite::Row<'_>, idx: usize) -> Result<i64, rusqlite::Error> {
    row.get::<usize, i64>(idx)
}

/// `rusqlite::Row::get` for a text column. The value depends on the row;
/// nothing is promised of it.
#[verifier::external_body]
pub(crate) fn row_get_string(row: &rusqlite::Row<'_>, idx: usize) -> Result<String, rusqlite::Error> {
    row.get::<usize, String>(idx)
}

/// `rusqlite::Row::get` for a boolean column. The value depends on the row;
/// nothing is promised of it.
#[verifier::external_body]
pub(crate) fn row_get_bool(row: &rusqlite::Row<'_>, idx: usize) -> Result<bool, rusqlite::Error> {
    row.get::<usize, bool>(idx)
}

/// Builds `rusqlite::Error::FromSqlConversionFailure` for a column that held a
/// value the caller could not accept, with the message as its source error.
/// The error is opaque here, so the contract states nothing of it.
#[verifier::external_body]
pub(crate) fn conversion_failure(column: usize, column_type: ColumnType, message: String) -> rusqlite::Error {
    let ty = match column_type {
        ColumnType::Integer => rusqlite::types::Type::Integer,
        ColumnType::Text => rusqlite::types::Type::Text,
    };
    rusqlite::Error::FromSqlConversionFailure(column, ty, message.into())
}

/// The text of a `rusqlite::Error`, through its `Display` implementation. It
/// depends on the error, which is opaque here; nothing is promised of it.
#[verifier::external_body]
pub(crate) fn sql_error_text(e: &rusqlite::Error) -> String {
    e.to_string()
}

} // verus!
