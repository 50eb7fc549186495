use vstd::prelude::*;

verus! {

/// A connection to the database. Nothing is known of what it holds.
#[verifier::external_type_specification]
#[verifier::external_body]
pub struct ExConnection(rusqlite::Connection);

/// A value as the database stores it. It is carried, never looked into:
/// the norm of a vector and the bounds of a norm window come as such values.
#[verifier::external_type_specification]
#[verifier::external_body]
pub struct ExValue(rusqlite::types::Value);

/// An open transaction on a connection. Dropping it without a commit rolls
/// back what was written since it began.
#[verifier::external_type_specification]
#[verifier::external_body]
pub struct ExTransaction<'a>(rusqlite::Transaction<'a>);

/// An owned path in the file system, of whatever bytes the operating
/// system takes. Nothing is known of what it names.
#[verifier::external_type_specification]
#[verifier::external_body]
pub struct ExPath(std::path::PathBuf);

/// `rusqlite::Connection::open_in_memory`: a connection to a new database
/// in memory, or the driver's error. Nothing is claimed of the connection.
#[verifier::external_body]
pub(crate) fn open_in_memory() -> (r: Result<rusqlite::Connection, rusqlite::Error>) {
    rusqlite::Connection::open_in_memory()
}

/// `rusqlite::Connection::open`: a connection to the database file at
/// `path`, which is created where it is missing, or the driver's error.
/// Nothing is claimed of the connection.
#[verifier::external_body]
pub(crate) fn open_file(path: &std::path::PathBuf) -> (r: Result<
    rusqlite::Connection,
    rusqlite::Error,
>) {
    rusqlite::Connection::open(path)
}

/// `rusqlite::Connection::pragma_update` with a text value, on the main
/// schema. Nothing is claimed of the outcome.
#[verifier::external_body]
pub(crate) fn set_pragma_text(conn: &rusqlite::Connection, name: &str, value: &str) -> (r: Result<
    (),
    rusqlite::Error,
>) {
    conn.pragma_update(None, name, value)
}

/// `rusqlite::Connection::pragma_update` with an integer value, on the main
/// schema. Nothing is claimed of the outcome.
#[verifier::external_body]
pub(crate) fn set_pragma_integer(conn: &rusqlite::Connection, name: &str, value: i64) -> (r:
    Result<(), rusqlite::Error>) {
    conn.pragma_update(None, name, value)
}

/// `rusqlite::Connection::execute` on a statement without parameters: the
/// number of rows that the driver reports as changed, or its error. Nothing
/// is claimed of that number.
#[verifier::external_body]
pub(crate) fn execute_plain(conn: &rusqlite::Connection, sql: &str) -> (r: Result<
    usize,
    rusqlite::Error,
>) {
    conn.execute(sql, ())
}

/// `rusqlite::Connection::execute` on a statement whose one parameter is a
/// row id: the number of rows that the driver reports as changed, or its
/// error. Nothing is claimed of that number.
#[verifier::external_body]
pub(crate) fn execute_with_id(conn: &rusqlite::Connection, sql: &str, id: i64) -> (r: Result<
    usize,
    rusqlite::Error,
>) {
    conn.execute(sql, (id,))
}

/// `rusqlite::Connection::execute` on a statement whose three parameters
/// are a blob, a stored value and an optional text: the number of rows that
/// the driver reports as changed, or its error. Nothing is claimed of that
/// number.
#[verifier::external_body]
pub(crate) fn execute_row(
    conn: &rusqlite::Connection,
    sql: &str,
    blob: &Vec<u8>,
    norm: &rusqlite::types::Value,
    metadata: Option<&str>,
) -> (r: Result<usize, rusqlite::Error>) {
    conn.execute(sql, (blob, norm, metadata))
}

/// `rusqlite::Connection::last_insert_rowid`: the row id that the driver
/// reports for the latest insert on this connection. Nothing is claimed of
/// it.
#[verifier::external_body]
pub(crate) fn last_insert_rowid(conn: &rusqlite::Connection) -> (id: i64) {
    conn.last_insert_rowid()
}

/// `rusqlite::Connection::query_row` on a statement without parameters,
/// reading the first column of the first row as an integer. Nothing is
/// claimed of the integer.
#[verifier::external_body]
pub(crate) fn query_integer(conn: &rusqlite::Connection, sql: &str) -> (r: Result<
    i64,
    rusqlite::Error,
>) {
    conn.query_row(sql, (), |row| row.get(0))
}

/// `rusqlite::Connection::query_row` on a statement whose one parameter is
/// a row id, reading the first column of the first row as a blob;
/// `rusqlite::OptionalExtension::optional` turns the absence of a row into
/// `None`. Nothing is claimed of the bytes.
#[verifier::external_body]
pub(crate) fn query_blob(conn: &rusqlite::Connection, sql: &str, id: i64) -> (r: Result<
    Option<Vec<u8>>,
    rusqlite::Error,
>) {
    rusqlite::OptionalExtension::optional(conn.query_row(sql, (id,), |row| row.get(0)))
}

/// `rusqlite::Statement::query_map` on a statement whose two parameters are
/// stored values, reading each row as a row id and a blob, in the order in
/// which the database hands the rows out. Nothing is claimed of the rows.
#[verifier::external_body]
pub(crate) fn query_blobs_between(
    conn: &rusqlite::Connection,
    sql: &str,
    low: &rusqlite::types::Value,
    high: &rusqlite::types::Value,
) -> (r: Result<Vec<(i64, Vec<u8>)>, rusqlite::Error>) {
    let mut stmt = conn.prepare(sql)?;
    let rows = stmt.query_map((low, high), |row| Ok((row.get(0)?, row.get(1)?)))?;
    rows.collect()
}

/// `rusqlite::Statement::query_map` on a statement whose one parameter is a
/// text, reading each row as two texts. Nothing is claimed of the rows.
#[verifier::external_body]
pub(crate) fn query_text_pairs(conn: &rusqlite::Connection, sql: &str, name: &str) -> (r: Result<
    Vec<(String, String)>,
    rusqlite::Error,
>) {
    let mut stmt = conn.prepare(sql)?;
    let rows = stmt.query_map((name,), |row| Ok((row.get(0)?, row.get(1)?)))?;
    rows.collect()
}

/// `rusqlite::Connection::unchecked_transaction`: begins a transaction on
/// the connection, or gives the driver's error.
#[verifier::external_body]
pub(crate) fn begin<'a>(conn: &'a rusqlite::Connection) -> (r: Result<
    rusqlite::Transaction<'a>,
    rusqlite::Error,
>) {
    conn.unchecked_transaction()
}

/// `rusqlite::Transaction::commit`: commits the transaction, or gives the
/// driver's error.
#[verifier::external_body]
pub(crate) fn commit(tx: rusqlite::Transaction<'_>) -> (r: Result<(), rusqlite::Error>) {
    tx.commit()
}

} // verus!
