use vstd::prelude::*;
use crate::database::{execute_plain, query_text_pairs};
use crate::error::{from_driver, statement_done, VectorError};

verus! {

/// How the lookup indexes of a table are made.
#[derive(Debug, Clone)]
pub struct IndexConfig {
    /// Whether a covering index is wanted.
    pub covering_index: bool,
    /// What the name of every index starts with.
    pub index_prefix: String,
}

impl Default for IndexConfig {
    /// A covering index, with names that start with `idx_vectors`.
    fn default() -> (c: Self)
        ensures
            c.covering_index,
            c.index_prefix@ == "idx_vectors"@,
    {
        IndexConfig { covering_index: true, index_prefix: "idx_vectors".to_owned() }
    }
}

/// An index as the database lists it.
#[derive(Debug, Clone)]
pub struct IndexStat {
    pub name: String,
    pub table: String,
}

/// The name of the index on the ids of a table.
pub open spec fn id_index_name(prefix: Seq<char>, table: Seq<char>) -> Seq<char> {
    prefix + "_"@ + table + "_id"@
}

/// The statement that creates the index on the ids of a table where it is
/// missing.
pub open spec fn index_statement(prefix: Seq<char>, table: Seq<char>) -> Seq<char> {
    "CREATE INDEX IF NOT EXISTS "@ + id_index_name(prefix, table) + " ON "@ + table + " (id)"@
}

/// Writes the statement that creates the index on the ids of a table.
pub fn index_sql(table_name: &str, config: &IndexConfig) -> (sql: String)
    ensures
        sql@ == index_statement(config.index_prefix@, table_name@),
{
    let sql = String::from_str("CREATE INDEX IF NOT EXISTS ").concat(
        config.index_prefix.as_str(),
    ).concat("_").concat(table_name).concat("_id").concat(" ON ").concat(table_name).concat(" (id)");
    assert(sql@ =~= index_statement(config.index_prefix@, table_name@));
    sql
}

/// Creates the index on the ids of a table. An index that is already there
/// is left as it is.
pub fn create_indexes(conn: &rusqlite::Connection, table_name: &str, config: &IndexConfig) -> (r:
    Result<(), VectorError>)
    ensures
        r is Ok || (r is Err && r->Err_0 is Sqlite),
{
    let sql = index_sql(table_name, config);
    statement_done(execute_plain(conn, sql.as_str()))
}

/// Has the database refresh its statistics and then tune itself, in two
/// statements. Where the database refuses the first, the second is not
/// issued. Whether anything changes is the database's matter: on some
/// configurations neither statement does any work.
pub fn optimize_database(conn: &rusqlite::Connection) -> (r: Result<(), VectorError>)
    ensures
        r is Ok || (r is Err && r->Err_0 is Sqlite),
{
    match statement_done(execute_plain(conn, crate::statements::analyze_sql())) {
        Ok(()) => {},
        Err(e) => {
            return Err(e);
        },
    }
    statement_done(execute_plain(conn, crate::statements::optimize_sql()))
}

/// Names each listed index with its table, in the order of the list.
pub fn index_stats_of(pairs: Vec<(String, String)>) -> (stats: Vec<IndexStat>)
    ensures
        stats@.len() == pairs@.len(),
        forall|i: int|
            0 <= i < pairs@.len() ==> (#[trigger] stats@[i]).name == pairs@[i].0 && stats@[i].table
                == pairs@[i].1,
{
    let mut pairs = pairs;
    let ghost all = pairs@;
    let mut stats: Vec<IndexStat> = Vec::new();
    while pairs.len() > 0
        invariant
            stats@.len() + pairs@.len() == all.len(),
            forall|i: int| 0 <= i < pairs@.len() ==> pairs@[i] == all[stats@.len() + i],
            forall|i: int|
                0 <= i < stats@.len() ==> (#[trigger] stats@[i]).name == all[i].0 && stats@[i].table
                    == all[i].1,
        decreases pairs@.len(),
    {
        let (name, table) = pairs.remove(0);
        stats.push(IndexStat { name, table });
    }
    stats
}

/// Lists the indexes that the database holds on a table, each with its
/// name and the name of its table, in the order in which the database
/// hands them out. A table without indexes, or one that does not exist,
/// gives an empty list.
pub fn get_index_stats(conn: &rusqlite::Connection, table_name: &str) -> (r: Result<
    Vec<IndexStat>,
    VectorError,
>)
    ensures
        r is Ok || (r is Err && r->Err_0 is Sqlite),
{
    listed_indexes(query_text_pairs(conn, crate::statements::index_list_sql(), table_name))
}

/// Reads the driver's answer to the query for the indexes of a table: each
/// row becomes an index with its name and its table, in the order of the
/// rows, and an error is kept as `Sqlite`.
pub fn listed_indexes(outcome: Result<Vec<(String, String)>, rusqlite::Error>) -> (r: Result<
    Vec<IndexStat>,
    VectorError,
>)
    ensures
        outcome is Err ==> r == Err::<Vec<IndexStat>, VectorError>(
            VectorError::Sqlite(outcome->Err_0),
        ),
        outcome is Ok ==> r is Ok && r->Ok_0@.len() == outcome->Ok_0@.len() && forall|i: int|
            0 <= i < outcome->Ok_0@.len() ==> (#[trigger] r->Ok_0@[i]).name == outcome->Ok_0@[i].0
                && r->Ok_0@[i].table == outcome->Ok_0@[i].1,
{
    match from_driver(outcome) {
        Ok(pairs) => Ok(index_stats_of(pairs)),
        Err(e) => Err(e),
    }
}

} // verus!
