use vstd::prelude::*;
use crate::config::{StorageMode, VectorConfig};
use crate::database::{
    begin, commit, execute_plain, execute_row, execute_with_id, last_insert_rowid, open_file,
    open_in_memory, query_blob, query_blobs_between, query_integer, set_pragma_integer,
    set_pragma_text,
};
use crate::error::{from_driver, statement_done, VectorError};
use crate::indexes::{create_indexes, IndexConfig};
use crate::pragmas::{connection_settings, pragma_name, pragma_value, Pragma, PragmaValue};
use crate::similarity::{decoded, deserialize_vector, ragged_length_message, serialize_vector};
use crate::statements::{
    count_sql, delete_sql, freelist_count_sql, insert_sql, page_count_sql, page_size_sql,
    schema_sql, select_sql, window_sql,
};

verus! {

/// The text of the error for an in-memory constructor that is asked for a
/// persistent store.
pub open spec fn persistent_mode_message() -> Seq<char> {
    "Use new_persistent() for persistent storage"@
}

/// The text of the error for a batch whose lists differ in length.
pub open spec fn batch_length_message() -> Seq<char> {
    "Vectors and metadata length mismatch"@
}

/// The text of the error for a batch with another number of norms than of
/// vectors.
pub open spec fn norm_length_message() -> Seq<char> {
    "Vectors and norms length mismatch"@
}

/// The text of the error for a database whose size no 64-bit integer
/// holds.
pub open spec fn size_message() -> Seq<char> {
    "Database size out of range"@
}

/// Every vector has `dimension` components.
pub open spec fn all_of_dimension(vectors: Seq<Vec<u32>>, dimension: usize) -> bool {
    forall|i: int| 0 <= i < vectors.len() ==> (#[trigger] vectors[i])@.len() == dimension
}

/// Vector `i` is the first that does not have `dimension` components.
pub open spec fn first_mismatch(vectors: Seq<Vec<u32>>, dimension: usize, i: int) -> bool {
    &&& 0 <= i < vectors.len()
    &&& vectors[i]@.len() != dimension
    &&& forall|j: int| 0 <= j < i ==> (#[trigger] vectors[j])@.len() == dimension
}

/// Checks a batch before any of it is written. It passes exactly when the
/// lists have the same length and every vector has `dimension` components.
/// Lists of different lengths are refused first; then the first vector of
/// another length is named.
pub fn validate_batch(dimension: usize, vectors: &[Vec<u32>], metadata_len: usize) -> (r: Result<
    (),
    VectorError,
>)
    ensures
        r is Ok <==> vectors@.len() == metadata_len && all_of_dimension(vectors@, dimension),
        vectors@.len() != metadata_len ==> r is Err && r->Err_0 is InvalidVector
            && r->Err_0->InvalidVector_0@ == batch_length_message(),
        vectors@.len() == metadata_len && !all_of_dimension(vectors@, dimension) ==> exists|i: int|
            #![trigger vectors@[i]]
            first_mismatch(vectors@, dimension, i) && r == Err::<(), VectorError>(
                VectorError::DimensionMismatch { expected: dimension, actual: vectors@[i].len() },
            ),
{
    if vectors.len() != metadata_len {
        return Err(
            VectorError::InvalidVector("Vectors and metadata length mismatch".to_owned()),
        );
    }
    let mut i: usize = 0;
    while i < vectors.len()
        invariant
            0 <= i <= vectors@.len(),
            vectors@.len() == metadata_len,
            forall|j: int| 0 <= j < i ==> (#[trigger] vectors@[j])@.len() == dimension,
        decreases vectors@.len() - i,
    {
        if vectors[i].len() != dimension {
            assert(first_mismatch(vectors@, dimension, i as int));
            return Err(
                VectorError::DimensionMismatch { expected: dimension, actual: vectors[i].len() },
            );
        }
        i += 1;
    }
    Ok(())
}

/// What a store reports of itself.
#[derive(Debug, Clone, Copy)]
pub struct StorageStats {
    pub vector_count: i64,
    pub size_bytes: i64,
    pub dimension: usize,
}

/// The bytes in use: the pages that are not free, times the page size.
pub open spec fn used_bytes(page_count: i64, freelist_count: i64, page_size: i64) -> int {
    (page_count - freelist_count) * page_size
}

/// Puts the statistics together from the database's page accounting. It
/// fails exactly when the number of bytes in use fits no signed 64-bit
/// integer.
pub fn storage_stats(
    vector_count: i64,
    page_count: i64,
    freelist_count: i64,
    page_size: i64,
    dimension: usize,
) -> (r: Result<StorageStats, VectorError>)
    ensures
        i64::MIN <= used_bytes(page_count, freelist_count, page_size) <= i64::MAX ==> r is Ok && r->Ok_0
            == (StorageStats {
            vector_count,
            size_bytes: used_bytes(page_count, freelist_count, page_size) as i64,
            dimension,
        }),
        !(i64::MIN <= used_bytes(page_count, freelist_count, page_size) <= i64::MAX) ==> r is Err
            && r->Err_0 is Index && r->Err_0->Index_0@ == size_message(),
{
    let pages: i128 = page_count as i128 - freelist_count as i128;
    assert(-0x1_0000_0000_0000_0000 < pages < 0x1_0000_0000_0000_0000);
    assert(-0x8000_0000_0000_0000_0000_0000_0000_0000 < pages * page_size
        < 0x8000_0000_0000_0000_0000_0000_0000_0000) by (nonlinear_arith)
        requires
            -0x1_0000_0000_0000_0000 < pages < 0x1_0000_0000_0000_0000,
            -0x8000_0000_0000_0000 <= page_size < 0x8000_0000_0000_0000,
    ;
    let bytes: i128 = pages * (page_size as i128);
    if bytes < -0x8000_0000_0000_0000 || bytes > 0x7fff_ffff_ffff_ffff {
        return Err(VectorError::Index("Database size out of range".to_owned()));
    }
    Ok(StorageStats { vector_count, size_bytes: bytes as i64, dimension })
}

/// A stored vector that a search has to score.
#[derive(Debug, Clone)]
pub struct Candidate {
    pub id: i64,
    pub vector: Vec<u32>,
}

/// Every blob is a whole number of components.
pub open spec fn all_whole(rows: Seq<(i64, Vec<u8>)>) -> bool {
    forall|i: int| 0 <= i < rows.len() ==> (#[trigger] rows[i]).1@.len() % 4 == 0
}

/// Reads the rows that the database handed out: each keeps its id and its
/// place, and its vector is what its bytes stand for. Fails exactly when
/// one of the blobs is no whole number of components.
pub fn decode_candidates(rows: &Vec<(i64, Vec<u8>)>) -> (r: Result<Vec<Candidate>, VectorError>)
    ensures
        all_whole(rows@) ==> r is Ok && r->Ok_0@.len() == rows@.len() && forall|i: int|
            0 <= i < rows@.len() ==> (#[trigger] r->Ok_0@[i]).id == rows@[i].0 && r->Ok_0@[i].vector@
                == decoded(rows@[i].1@),
        !all_whole(rows@) ==> r is Err && r->Err_0 is InvalidVector
            && r->Err_0->InvalidVector_0@ == ragged_length_message(),
{
    let mut out: Vec<Candidate> = Vec::new();
    let mut i: usize = 0;
    while i < rows.len()
        invariant
            0 <= i <= rows@.len(),
            out@.len() == i,
            forall|j: int| 0 <= j < i ==> (#[trigger] rows@[j]).1@.len() % 4 == 0,
            forall|j: int|
                0 <= j < i ==> (#[trigger] out@[j]).id == rows@[j].0 && out@[j].vector@ == decoded(
                    rows@[j].1@,
                ),
        decreases rows@.len() - i,
    {
        match deserialize_vector(rows[i].1.as_slice()) {
            Ok(vector) => {
                out.push(Candidate { id: rows[i].0, vector });
            },
            Err(e) => {
                assert(rows@[i as int].1@.len() % 4 != 0);
                return Err(e);
            },
        }
        i += 1;
    }
    Ok(out)
}

/// Reads what a lookup by id found: no row is no vector, and a row's bytes
/// are read as a vector. Fails exactly when there are bytes and they are no
/// whole number of components.
pub fn decode_row(found: Option<Vec<u8>>) -> (r: Result<Option<Vec<u32>>, VectorError>)
    ensures
        found is None ==> r is Ok && r->Ok_0 is None,
        found is Some && found->Some_0@.len() % 4 == 0 ==> r is Ok && r->Ok_0 is Some
            && r->Ok_0->Some_0@ == decoded(found->Some_0@),
        found is Some && found->Some_0@.len() % 4 != 0 ==> r is Err && r->Err_0 is InvalidVector
            && r->Err_0->InvalidVector_0@ == ragged_length_message(),
{
    match found {
        None => Ok(None),
        Some(bytes) => match deserialize_vector(bytes.as_slice()) {
            Ok(vector) => Ok(Some(vector)),
            Err(e) => Err(e),
        },
    }
}

/// Tells whether a statement that reported `changed` rows as changed
/// removed a row.
pub fn row_was_removed(changed: usize) -> (r: bool)
    ensures
        r == (changed > 0),
{
    changed > 0
}

/// A store of vectors of one dimension, in one table of one database
/// connection.
pub struct VectorStore {
    conn: rusqlite::Connection,
    config: VectorConfig,
    table_name: String,
}

impl VectorStore {
    /// The settings that the store was opened with.
    pub closed spec fn settings(&self) -> VectorConfig {
        self.config
    }

    /// The name of the table that holds the vectors.
    pub closed spec fn table(&self) -> Seq<char> {
        self.table_name@
    }

    /// Opens a store in memory. A configuration that asks for a persistent
    /// store is refused before anything is opened.
    pub fn new(config: VectorConfig) -> (r: Result<Self, VectorError>)
        ensures
            config.storage_mode == StorageMode::Persistent ==> r is Err && r->Err_0 is Config
                && r->Err_0->Config_0@ == persistent_mode_message(),
            config.storage_mode == StorageMode::InMemory ==> r is Ok || (r is Err
                && r->Err_0 is Sqlite),
            r is Ok ==> r->Ok_0.settings() == config && r->Ok_0.table() == "vectors"@,
    {
        match config.storage_mode {
            StorageMode::InMemory => match open_in_memory() {
                Ok(conn) => Self::initialize(conn, config, "vectors".to_owned()),
                Err(e) => Err(VectorError::Sqlite(e)),
            },
            StorageMode::Persistent => Err(
                VectorError::Config("Use new_persistent() for persistent storage".to_owned()),
            ),
        }
    }

    /// Opens the store in the database file at `path`, which is created
    /// where it is missing. A file that already holds the table is taken as
    /// it is.
    pub fn new_persistent(path: &std::path::PathBuf, config: VectorConfig) -> (r: Result<
        Self,
        VectorError,
    >)
        ensures
            r is Ok || (r is Err && r->Err_0 is Sqlite),
            r is Ok ==> r->Ok_0.settings() == config && r->Ok_0.table() == "vectors"@,
    {
        match open_file(path) {
            Ok(conn) => Self::initialize(conn, config, "vectors".to_owned()),
            Err(e) => Err(VectorError::Sqlite(e)),
        }
    }

    /// Applies the settings, then creates the table and its index where
    /// they are missing. The first step that the database refuses ends it.
    fn initialize(conn: rusqlite::Connection, config: VectorConfig, table_name: String) -> (r:
        Result<Self, VectorError>)
        ensures
            r is Ok || (r is Err && r->Err_0 is Sqlite),
            r is Ok ==> r->Ok_0.settings() == config && r->Ok_0.table() == table_name@,
    {
        match Self::configure_connection(&conn, &config) {
            Ok(()) => {},
            Err(e) => {
                return Err(e);
            },
        }
        match Self::create_schema(&conn, table_name.as_str()) {
            Ok(()) => {},
            Err(e) => {
                return Err(e);
            },
        }
        let index_config = IndexConfig::default();
        match create_indexes(&conn, table_name.as_str(), &index_config) {
            Ok(()) => {},
            Err(e) => {
                return Err(e);
            },
        }
        Ok(VectorStore { conn, config, table_name })
    }

    /// Applies one setting to a connection.
    fn apply(conn: &rusqlite::Connection, pragma: Pragma) -> (r: Result<(), rusqlite::Error>) {
        let name = pragma_name(pragma);
        match pragma_value(pragma) {
            PragmaValue::Word(word) => set_pragma_text(conn, name, word),
            PragmaValue::Number(number) => set_pragma_integer(conn, name, number),
        }
    }

    /// Applies the settings that the configuration asks for, in their
    /// order, up to the first that the database refuses. The settings
    /// after that one are not applied, and the error is the database's
    /// own, kept as `Sqlite`.
    fn configure_connection(conn: &rusqlite::Connection, config: &VectorConfig) -> (r: Result<
        (),
        VectorError,
    >)
        ensures
            r is Ok || (r is Err && r->Err_0 is Sqlite),
    {
        let plan = connection_settings(config);
        let mut i: usize = 0;
        while i < plan.len()
            invariant
                0 <= i <= plan@.len(),
            decreases plan@.len() - i,
        {
            match from_driver(Self::apply(conn, plan[i])) {
                Ok(()) => {},
                Err(e) => {
                    return Err(e);
                },
            }
            i += 1;
        }
        Ok(())
    }

    /// Creates the table of vectors where it is missing.
    fn create_schema(conn: &rusqlite::Connection, table_name: &str) -> (r: Result<(), VectorError>)
        ensures
            r is Ok || (r is Err && r->Err_0 is Sqlite),
    {
        let sql = schema_sql(table_name);
        statement_done(execute_plain(conn, sql.as_str()))
    }

    /// The number of components of every vector of the store, as the
    /// configuration gave it when the store was opened.
    pub fn dimension(&self) -> (d: usize)
        ensures
            d == self.settings().dimension,
    {
        self.config.dimension
    }

    /// The connection of the store, for what this library does not issue
    /// itself: a caller registers its similarity function on it, and may
    /// run statements of its own. It is the connection that every
    /// operation of the store uses.
    pub fn connection(&self) -> (conn: &rusqlite::Connection)
        ensures
            *conn == self.link(),
    {
        &self.conn
    }

    /// Writes one vector with its norm and metadata and gives the new row's
    /// id. A vector of another dimension is refused before any writing.
    pub fn insert(
        &self,
        vector: &[u32],
        norm: &rusqlite::types::Value,
        metadata: Option<&str>,
    ) -> (r: Result<i64, VectorError>)
        ensures
            vector@.len() != self.settings().dimension ==> r == Err::<i64, VectorError>(
                VectorError::DimensionMismatch {
                    expected: self.settings().dimension,
                    actual: vector@.len() as usize,
                },
            ),
            vector@.len() == self.settings().dimension ==> r is Ok || (r is Err
                && r->Err_0 is Sqlite),
    {
        if vector.len() != self.config.dimension {
            return Err(
                VectorError::DimensionMismatch {
                    expected: self.config.dimension,
                    actual: vector.len(),
                },
            );
        }
        self.write_row(vector, norm, metadata)
    }

    /// Writes one row. It is the only place where a single vector reaches
    /// the database, and it takes none of another dimension than the
    /// store's.
    fn write_row(
        &self,
        vector: &[u32],
        norm: &rusqlite::types::Value,
        metadata: Option<&str>,
    ) -> (r: Result<i64, VectorError>)
        requires
            vector@.len() == self.settings().dimension,
        ensures
            r is Ok || (r is Err && r->Err_0 is Sqlite),
    {
        let vector_bytes = serialize_vector(vector);
        let sql = insert_sql(self.table_name.as_str());
        match execute_row(&self.conn, sql.as_str(), &vector_bytes, norm, metadata) {
            Ok(_) => Ok(last_insert_rowid(&self.conn)),
            Err(e) => Err(VectorError::Sqlite(e)),
        }
    }

    /// Writes a batch of vectors in one transaction and gives the ids of
    /// the new rows, in the order of the vectors. The batch is checked as a
    /// whole before the transaction begins: where the lists differ in length
    /// or one vector has another dimension than the store's, nothing is
    /// written. A row that the database refuses ends it without a commit.
    pub fn insert_batch(
        &self,
        vectors: &[Vec<u32>],
        norms: &[rusqlite::types::Value],
        metadata: &[Option<&str>],
    ) -> (r: Result<Vec<i64>, VectorError>)
        ensures
            vectors@.len() != metadata@.len() ==> r is Err && r->Err_0 is InvalidVector
                && r->Err_0->InvalidVector_0@ == batch_length_message(),
            vectors@.len() == metadata@.len() && !all_of_dimension(
                vectors@,
                self.settings().dimension,
            ) ==> exists|i: int|
                #![trigger vectors@[i]]
                first_mismatch(vectors@, self.settings().dimension, i) && r == Err::<
                    Vec<i64>,
                    VectorError,
                >(
                    VectorError::DimensionMismatch {
                        expected: self.settings().dimension,
                        actual: vectors@[i].len(),
                    },
                ),
            vectors@.len() == metadata@.len() && all_of_dimension(
                vectors@,
                self.settings().dimension,
            ) && norms@.len() != vectors@.len() ==> r is Err && r->Err_0 is InvalidVector
                && r->Err_0->InvalidVector_0@ == norm_length_message(),
            vectors@.len() == metadata@.len() && all_of_dimension(
                vectors@,
                self.settings().dimension,
            ) && norms@.len() == vectors@.len() ==> (r is Ok && r->Ok_0@.len() == vectors@.len())
                || (r is Err && r->Err_0 is Sqlite),
    {
        match validate_batch(self.config.dimension, vectors, metadata.len()) {
            Ok(()) => {},
            Err(e) => {
                proof {
                    if vectors@.len() == metadata@.len() {
                        let i = choose|i: int|
                            #![trigger vectors@[i]]
                            first_mismatch(vectors@, self.config.dimension, i) && Err::<
                                (),
                                VectorError,
                            >(e) == Err::<(), VectorError>(
                                VectorError::DimensionMismatch {
                                    expected: self.config.dimension,
                                    actual: vectors@[i].len(),
                                },
                            );
                        assert(first_mismatch(vectors@, self.settings().dimension, i));
                    }
                }
                return Err(e);
            },
        }
        if norms.len() != vectors.len() {
            return Err(VectorError::InvalidVector("Vectors and norms length mismatch".to_owned()));
        }
        self.write_batch(vectors, norms, metadata)
    }

    /// Writes a batch in one transaction. It is the only place where a
    /// batch reaches the database, and it takes none but a batch that has
    /// passed the check: lists of one length, and every vector of the
    /// store's dimension. So a batch that is refused begins no transaction
    /// and writes no row. Where the database refuses a row, the function
    /// returns with the transaction uncommitted, which rolls it back.
    fn write_batch(
        &self,
        vectors: &[Vec<u32>],
        norms: &[rusqlite::types::Value],
        metadata: &[Option<&str>],
    ) -> (r: Result<Vec<i64>, VectorError>)
        requires
            vectors@.len() == metadata@.len(),
            vectors@.len() == norms@.len(),
            all_of_dimension(vectors@, self.settings().dimension),
        ensures
            (r is Ok && r->Ok_0@.len() == vectors@.len()) || (r is Err && r->Err_0 is Sqlite),
    {
        let mut ids: Vec<i64> = Vec::new();
        let tx = match begin(&self.conn) {
            Ok(tx) => tx,
            Err(e) => {
                return Err(VectorError::Sqlite(e));
            },
        };
        let sql = insert_sql(self.table_name.as_str());
        let mut i: usize = 0;
        while i < vectors.len()
            invariant
                0 <= i <= vectors@.len(),
                vectors@.len() == metadata@.len(),
                vectors@.len() == norms@.len(),
                all_of_dimension(vectors@, self.settings().dimension),
                ids@.len() == i,
            decreases vectors@.len() - i,
        {
            let vector_bytes = serialize_vector(vectors[i].as_slice());
            match execute_row(&self.conn, sql.as_str(), &vector_bytes, &norms[i], metadata[i]) {
                Ok(_) => {},
                Err(e) => {
                    return Err(VectorError::Sqlite(e));
                },
            }
            ids.push(last_insert_rowid(&self.conn));
            i += 1;
        }
        match commit(tx) {
            Ok(()) => Ok(ids),
            Err(e) => Err(VectorError::Sqlite(e)),
        }
    }

    /// Reads the stored vectors whose norm lies between `norm_min` and
    /// `norm_max`, oldest first: the candidates that a search for `query`
    /// has to score. A query of another dimension is refused unread.
    pub fn candidates(
        &self,
        query: &[u32],
        norm_min: &rusqlite::types::Value,
        norm_max: &rusqlite::types::Value,
    ) -> (r: Result<Vec<Candidate>, VectorError>)
        ensures
            query@.len() != self.settings().dimension ==> r == Err::<Vec<Candidate>, VectorError>(
                VectorError::DimensionMismatch {
                    expected: self.settings().dimension,
                    actual: query@.len() as usize,
                },
            ),
            query@.len() == self.settings().dimension ==> r is Ok || (r is Err && (r->Err_0 is Sqlite
                || (r->Err_0 is InvalidVector && r->Err_0->InvalidVector_0@
                == ragged_length_message()))),
    {
        if query.len() != self.config.dimension {
            return Err(
                VectorError::DimensionMismatch {
                    expected: self.config.dimension,
                    actual: query.len(),
                },
            );
        }
        let sql = window_sql(self.table_name.as_str());
        match query_blobs_between(&self.conn, sql.as_str(), norm_min, norm_max) {
            Ok(rows) => decode_candidates(&rows),
            Err(e) => Err(VectorError::Sqlite(e)),
        }
    }

    /// Reads the vector of row `id`; no such row is no error.
    pub fn get(&self, id: i64) -> (r: Result<Option<Vec<u32>>, VectorError>)
        ensures
            r is Ok || (r is Err && (r->Err_0 is Sqlite || (r->Err_0 is InvalidVector
                && r->Err_0->InvalidVector_0@ == ragged_length_message()))),
    {
        let sql = select_sql(self.table_name.as_str());
        found_vector(query_blob(&self.conn, sql.as_str(), id))
    }

    /// Removes row `id`, and tells whether the database reported a row as
    /// removed: `false` where no row had that id, which is no error. The
    /// database's answer is read by `removal`, as that of a lookup is read
    /// by `found_vector`. At most one row goes, since no two rows share an
    /// id.
    pub fn delete(&self, id: i64) -> (r: Result<bool, VectorError>)
        ensures
            r is Ok || (r is Err && r->Err_0 is Sqlite),
    {
        let sql = delete_sql(self.table_name.as_str());
        removal(execute_with_id(&self.conn, sql.as_str(), id))
    }

    /// The number of rows that the table holds, as the database counts
    /// them at this moment. The count is the database's answer as it is;
    /// an error of the database is kept as `Sqlite`. Nothing is read but
    /// the count.
    pub fn count(&self) -> (r: Result<i64, VectorError>)
        ensures
            r is Ok || (r is Err && r->Err_0 is Sqlite),
    {
        let sql = count_sql(self.table_name.as_str());
        from_driver(query_integer(&self.conn, sql.as_str()))
    }

    /// The number of rows, the bytes in use and the dimension. Four
    /// questions go to the database, in this order: the number of rows, the
    /// number of pages, the size of a page and the number of free pages.
    /// `storage_stats` puts the answers together: the bytes are the pages
    /// that are not free, times the page size.
    pub fn stats(&self) -> (r: Result<StorageStats, VectorError>)
        ensures
            r is Ok ==> r->Ok_0.dimension == self.settings().dimension,
            r is Err ==> r->Err_0 is Sqlite || (r->Err_0 is Index && r->Err_0->Index_0@
                == size_message()),
    {
        let count = match self.count() {
            Ok(n) => n,
            Err(e) => {
                return Err(e);
            },
        };
        let page_count = match from_driver(query_integer(&self.conn, page_count_sql())) {
            Ok(n) => n,
            Err(e) => {
                return Err(e);
            },
        };
        let page_size = match from_driver(query_integer(&self.conn, page_size_sql())) {
            Ok(n) => n,
            Err(e) => {
                return Err(e);
            },
        };
        let freelist_count = match from_driver(query_integer(&self.conn, freelist_count_sql())) {
            Ok(n) => n,
            Err(e) => {
                return Err(e);
            },
        };
        storage_stats(count, page_count, freelist_count, page_size, self.config.dimension)
    }
}

impl VectorStore {
    /// The connection through which the store reaches its database.
    pub closed spec fn link(&self) -> rusqlite::Connection {
        self.conn
    }
}

/// Reads the driver's answer to a lookup by id: no row is no vector, a
/// row's bytes are read as a vector, and an error is kept as `Sqlite`.
/// Bytes that are no whole number of components are refused.
pub fn found_vector(outcome: Result<Option<Vec<u8>>, rusqlite::Error>) -> (r: Result<
    Option<Vec<u32>>,
    VectorError,
>)
    ensures
        outcome is Err ==> r == Err::<Option<Vec<u32>>, VectorError>(
            VectorError::Sqlite(outcome->Err_0),
        ),
        outcome is Ok && outcome->Ok_0 is None ==> r is Ok && r->Ok_0 is None,
        outcome is Ok && outcome->Ok_0 is Some && outcome->Ok_0->Some_0@.len() % 4 == 0 ==> r is Ok
            && r->Ok_0 is Some && r->Ok_0->Some_0@ == decoded(outcome->Ok_0->Some_0@),
        outcome is Ok && outcome->Ok_0 is Some && outcome->Ok_0->Some_0@.len() % 4 != 0 ==> r is Err
            && r->Err_0 is InvalidVector && r->Err_0->InvalidVector_0@ == ragged_length_message(),
{
    match from_driver(outcome) {
        Ok(found) => decode_row(found),
        Err(e) => Err(e),
    }
}

/// Reads the driver's answer to the removal of a row: a row was removed
/// exactly when the driver counts a changed row, and an error is kept as
/// `Sqlite`.
pub fn removal(outcome: Result<usize, rusqlite::Error>) -> (r: Result<bool, VectorError>)
    ensures
        outcome is Ok ==> r == Ok::<bool, VectorError>(outcome->Ok_0 > 0),
        outcome is Err ==> r == Err::<bool, VectorError>(VectorError::Sqlite(outcome->Err_0)),
{
    match from_driver(outcome) {
        Ok(changed) => Ok(row_was_removed(changed)),
        Err(e) => Err(e),
    }
}

} // verus!
