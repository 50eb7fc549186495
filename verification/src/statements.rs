use vstd::prelude::*;

verus! {

/// The statement that creates the table of vectors where it is missing.
pub open spec fn schema_statement(table: Seq<char>) -> Seq<char> {
    "CREATE TABLE IF NOT EXISTS "@ + table
        + " (id INTEGER PRIMARY KEY AUTOINCREMENT, vector BLOB NOT NULL, norm REAL NOT NULL, metadata TEXT)"@
}

/// The statement that writes one row.
pub open spec fn insert_statement(table: Seq<char>) -> Seq<char> {
    "INSERT INTO "@ + table + " (vector, norm, metadata) VALUES (?1, ?2, ?3)"@
}

/// The query for the vector of one row.
pub open spec fn select_statement(table: Seq<char>) -> Seq<char> {
    "SELECT vector FROM "@ + table + " WHERE id = ?1"@
}

/// The query for the rows whose norm lies in a window, oldest first.
pub open spec fn window_statement(table: Seq<char>) -> Seq<char> {
    "SELECT id, vector FROM "@ + table + " WHERE norm BETWEEN ?1 AND ?2 ORDER BY id"@
}

/// The statement that removes one row.
pub open spec fn delete_statement(table: Seq<char>) -> Seq<char> {
    "DELETE FROM "@ + table + " WHERE id = ?1"@
}

/// The query for the number of rows.
pub open spec fn count_statement(table: Seq<char>) -> Seq<char> {
    "SELECT COUNT(*) FROM "@ + table
}

/// Writes the statement that creates the table of vectors.
pub fn schema_sql(table: &str) -> (sql: String)
    ensures
        sql@ == schema_statement(table@),
{
    String::from_str("CREATE TABLE IF NOT EXISTS ").concat(table).concat(
        " (id INTEGER PRIMARY KEY AUTOINCREMENT, vector BLOB NOT NULL, norm REAL NOT NULL, metadata TEXT)",
    )
}

/// Writes the statement that writes one row.
pub fn insert_sql(table: &str) -> (sql: String)
    ensures
        sql@ == insert_statement(table@),
{
    String::from_str("INSERT INTO ").concat(table).concat(
        " (vector, norm, metadata) VALUES (?1, ?2, ?3)",
    )
}

/// Writes the query for the vector of one row.
pub fn select_sql(table: &str) -> (sql: String)
    ensures
        sql@ == select_statement(table@),
{
    String::from_str("SELECT vector FROM ").concat(table).concat(" WHERE id = ?1")
}

/// Writes the query for the rows whose norm lies in a window.
pub fn window_sql(table: &str) -> (sql: String)
    ensures
        sql@ == window_statement(table@),
{
    String::from_str("SELECT id, vector FROM ").concat(table).concat(
        " WHERE norm BETWEEN ?1 AND ?2 ORDER BY id",
    )
}

/// Writes the statement that removes one row.
pub fn delete_sql(table: &str) -> (sql: String)
    ensures
        sql@ == delete_statement(table@),
{
    String::from_str("DELETE FROM ").concat(table).concat(" WHERE id = ?1")
}

/// Writes the query for the number of rows.
pub fn count_sql(table: &str) -> (sql: String)
    ensures
        sql@ == count_statement(table@),
{
    String::from_str("SELECT COUNT(*) FROM ").concat(table)
}

/// The statement that has the database refresh its statistics.
pub open spec fn analyze_statement() -> Seq<char> {
    "ANALYZE"@
}

/// The statement that has the database tune itself.
pub open spec fn optimize_statement() -> Seq<char> {
    "PRAGMA optimize"@
}

/// The query for the indexes of one table, each with its name and the
/// name of its table.
pub open spec fn index_list_statement() -> Seq<char> {
    "SELECT name, tbl_name FROM sqlite_master WHERE type='index' AND tbl_name=?1"@
}

/// Gives the statement that has the database refresh its statistics.
pub fn analyze_sql() -> (sql: &'static str)
    ensures
        sql@ == analyze_statement(),
{
    "ANALYZE"
}

/// Gives the statement that has the database tune itself.
pub fn optimize_sql() -> (sql: &'static str)
    ensures
        sql@ == optimize_statement(),
{
    "PRAGMA optimize"
}

/// Gives the query for the indexes of one table.
pub fn index_list_sql() -> (sql: &'static str)
    ensures
        sql@ == index_list_statement(),
{
    "SELECT name, tbl_name FROM sqlite_master WHERE type='index' AND tbl_name=?1"
}

/// The query for the number of pages of the database.
pub open spec fn page_count_statement() -> Seq<char> {
    "PRAGMA page_count"@
}

/// The query for the size of a page of the database, in bytes.
pub open spec fn page_size_statement() -> Seq<char> {
    "PRAGMA page_size"@
}

/// The query for the number of pages of the database that are free.
pub open spec fn freelist_count_statement() -> Seq<char> {
    "PRAGMA freelist_count"@
}

/// Gives the query for the number of pages of the database.
pub fn page_count_sql() -> (sql: &'static str)
    ensures
        sql@ == page_count_statement(),
{
    "PRAGMA page_count"
}

/// Gives the query for the size of a page of the database.
pub fn page_size_sql() -> (sql: &'static str)
    ensures
        sql@ == page_size_statement(),
{
    "PRAGMA page_size"
}

/// Gives the query for the number of free pages of the database.
pub fn freelist_count_sql() -> (sql: &'static str)
    ensures
        sql@ == freelist_count_statement(),
{
    "PRAGMA freelist_count"
}

} // verus!
