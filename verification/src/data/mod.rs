//! Data handling: the app data directory, conversions between stored and
//! in-memory values, and the SQLite database that holds them.

pub mod app_data;
pub mod conversion;
pub mod database;
pub mod sqlite;
