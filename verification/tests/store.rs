use rusqlite::types::Value;
use rusqlite::Connection;
use sqlite_vector_core::indexes::{
    create_indexes, get_index_stats, index_sql, optimize_database, IndexConfig,
};
use sqlite_vector_core::ranking::{
    rank_results, rank_results_with_threshold, window_tolerance, WIDEST_TOLERANCE,
};
use sqlite_vector_core::pragmas::{connection_settings, Pragma};
use sqlite_vector_core::statements::{
    count_sql, delete_sql, freelist_count_sql, insert_sql, page_count_sql, page_size_sql,
    schema_sql, select_sql, window_sql,
};
use sqlite_vector_core::storage::{
    decode_candidates, decode_row, row_was_removed, storage_stats, validate_batch,
};
use sqlite_vector_core::{SearchResult, StorageMode, VectorConfig, VectorError, VectorStore};

struct Scored {
    id: i64,
    similarity: f32,
}

fn bits(v: &[f32]) -> Vec<u32> {
    v.iter().map(|x| x.to_bits()).collect()
}

fn floats(v: &[u32]) -> Vec<f32> {
    v.iter().map(|x| f32::from_bits(*x)).collect()
}

fn norm(v: &[f32]) -> f32 {
    let mut sum = 0.0f32;
    for x in v {
        sum += x * x;
    }
    sum.sqrt()
}

fn cosine(a: &[f32], b: &[f32]) -> f32 {
    let mut dot = 0.0f32;
    let mut norm_a = 0.0f32;
    let mut norm_b = 0.0f32;
    for i in 0..a.len() {
        dot += a[i] * b[i];
        norm_a += a[i] * a[i];
        norm_b += b[i] * b[i];
    }
    if norm_a == 0.0 || norm_b == 0.0 {
        return 0.0;
    }
    dot / (norm_a.sqrt() * norm_b.sqrt())
}

fn as_real(x: f32) -> Value {
    Value::Real(f64::from(x))
}

fn insert(store: &VectorStore, v: &[f32], metadata: Option<&str>) -> Result<i64, VectorError> {
    store.insert(&bits(v), &as_real(norm(v)), metadata)
}

fn insert_batch(
    store: &VectorStore,
    vectors: &[Vec<f32>],
    metadata: &[Option<&str>],
) -> Result<Vec<i64>, VectorError> {
    let words: Vec<Vec<u32>> = vectors.iter().map(|v| bits(v)).collect();
    let norms: Vec<Value> = vectors.iter().map(|v| as_real(norm(v))).collect();
    store.insert_batch(&words, &norms, metadata)
}

fn scored(store: &VectorStore, query: &[f32], tolerance: f32) -> Result<Vec<SearchResult>, VectorError> {
    let query_norm = norm(query);
    let low = as_real(query_norm * (1.0 - tolerance));
    let high = as_real(query_norm * (1.0 + tolerance));
    let candidates = store.candidates(&bits(query), &low, &high)?;
    Ok(candidates
        .iter()
        .map(|c| SearchResult { id: c.id, similarity: cosine(query, &floats(&c.vector)).to_bits() })
        .collect())
}

fn search(store: &VectorStore, query: &[f32], k: usize) -> Result<Vec<Scored>, VectorError> {
    let rows = scored(store, query, f32::from_bits(WIDEST_TOLERANCE))?;
    Ok(rank_results(&rows, k)
        .iter()
        .map(|r| Scored { id: r.id, similarity: f32::from_bits(r.similarity) })
        .collect())
}

fn search_with_threshold(
    store: &VectorStore,
    query: &[f32],
    k: usize,
    threshold: f32,
) -> Result<Vec<Scored>, VectorError> {
    let slack = 1.0 - threshold;
    let rows = scored(store, query, f32::from_bits(window_tolerance(slack.to_bits())))?;
    Ok(rank_results_with_threshold(&rows, k, threshold.to_bits())
        .iter()
        .map(|r| Scored { id: r.id, similarity: f32::from_bits(r.similarity) })
        .collect())
}

fn pseudo_random(state: &mut u32, len: usize) -> Vec<f32> {
    let mut v: Vec<f32> = Vec::new();
    for _ in 0..len {
        *state ^= *state << 13;
        *state ^= *state >> 17;
        *state ^= *state << 5;
        v.push((*state >> 8) as f32 / 16_777_216.0);
    }
    v
}

#[test]
fn test_create_indexes() {
    let conn = Connection::open_in_memory().unwrap();

    conn.execute(
        "CREATE TABLE test_vectors (id INTEGER PRIMARY KEY, vector BLOB, norm REAL)",
        [],
    )
    .unwrap();

    let config = IndexConfig::default();
    create_indexes(&conn, "test_vectors", &config).unwrap();

    let stats = get_index_stats(&conn, "test_vectors").unwrap();
    assert!(!stats.is_empty());
}

#[test]
fn index_is_named_after_prefix_and_table() {
    let conn = Connection::open_in_memory().unwrap();
    conn.execute("CREATE TABLE t (id INTEGER PRIMARY KEY, vector BLOB, norm REAL)", []).unwrap();
    let config = IndexConfig::default();
    assert!(config.covering_index);
    assert_eq!(config.index_prefix, "idx_vectors");
    assert_eq!(index_sql("t", &config), "CREATE INDEX IF NOT EXISTS idx_vectors_t_id ON t (id)");
    create_indexes(&conn, "t", &config).unwrap();
    create_indexes(&conn, "t", &config).unwrap();
    let stats = get_index_stats(&conn, "t").unwrap();
    assert_eq!(stats.len(), 1);
    assert_eq!(stats[0].name, "idx_vectors_t_id");
    assert_eq!(stats[0].table, "t");
    assert_eq!(get_index_stats(&conn, "missing").unwrap().len(), 0);
    optimize_database(&conn).unwrap();
}

#[test]
fn create_indexes_on_a_missing_table_fails() {
    let conn = Connection::open_in_memory().unwrap();
    let result = create_indexes(&conn, "missing", &IndexConfig::default());
    assert!(matches!(result, Err(VectorError::Sqlite(_))));
}

#[test]
fn test_dimension_validation() {
    let config = VectorConfig::new(10);
    let store = VectorStore::new(config).unwrap();

    let wrong_dim = vec![1.0; 5];
    let result = insert(&store, &wrong_dim, None);

    assert!(result.is_err());
    assert!(matches!(result.unwrap_err(), VectorError::DimensionMismatch { .. }));
}

#[test]
fn dimension_mismatch_names_both_lengths() {
    let store = VectorStore::new(VectorConfig::new(10)).unwrap();
    match insert(&store, &vec![1.0; 5], None) {
        Err(VectorError::DimensionMismatch { expected, actual }) => {
            assert_eq!(expected, 10);
            assert_eq!(actual, 5);
        }
        _ => panic!("a mismatch was expected"),
    }
    assert_eq!(store.count().unwrap(), 0);
    match search(&store, &vec![1.0; 11], 3) {
        Err(VectorError::DimensionMismatch { expected, actual }) => {
            assert_eq!(expected, 10);
            assert_eq!(actual, 11);
        }
        _ => panic!("a mismatch was expected"),
    }
}

#[test]
fn test_metadata() {
    let config = VectorConfig::new(3);
    let store = VectorStore::new(config).unwrap();

    let vector = vec![1.0, 2.0, 3.0];
    let id = insert(&store, &vector, Some("test metadata")).unwrap();

    assert!(id > 0);
}

#[test]
fn metadata_and_norm_are_stored_with_the_row() {
    let store = VectorStore::new(VectorConfig::new(2)).unwrap();
    let id = insert(&store, &[3.0, 4.0], Some("note")).unwrap();
    let (stored_norm, metadata, blob): (f64, Option<String>, Vec<u8>) = store
        .connection()
        .query_row("SELECT norm, metadata, vector FROM vectors WHERE id = ?1", [id], |row| {
            Ok((row.get(0)?, row.get(1)?, row.get(2)?))
        })
        .unwrap();
    assert_eq!(stored_norm, 5.0);
    assert_eq!(metadata, Some("note".to_string()));
    assert_eq!(blob, vec![0x00, 0x00, 0x40, 0x40, 0x00, 0x00, 0x80, 0x40]);
}

#[test]
fn test_vector_store_basic() {
    let config = VectorConfig::new(3);
    let store = VectorStore::new(config).unwrap();

    let v1 = vec![1.0, 2.0, 3.0];
    let id = insert(&store, &v1, None).unwrap();
    assert_eq!(id, 1);

    let retrieved = floats(&store.get(id).unwrap().unwrap());
    assert_eq!(v1, retrieved);

    assert_eq!(store.count().unwrap(), 1);
}

#[test]
fn test_batch_insert() {
    let config = VectorConfig::new(3).with_batch_size(2);
    let store = VectorStore::new(config).unwrap();

    let vectors = vec![vec![1.0, 0.0, 0.0], vec![0.0, 1.0, 0.0], vec![0.0, 0.0, 1.0]];

    let metadata = vec![None, None, None];
    let ids = insert_batch(&store, &vectors, &metadata).unwrap();

    assert_eq!(ids.len(), 3);
    assert_eq!(store.count().unwrap(), 3);
}

#[test]
fn batch_ids_follow_the_order_of_the_vectors() {
    let store = VectorStore::new(VectorConfig::new(2)).unwrap();
    let vectors = vec![vec![1.0, 0.0], vec![0.0, 2.0], vec![3.0, 3.0]];
    let ids = insert_batch(&store, &vectors, &[None, Some("b"), None]).unwrap();
    assert_eq!(ids, vec![1, 2, 3]);
    for (i, id) in ids.iter().enumerate() {
        assert_eq!(floats(&store.get(*id).unwrap().unwrap()), vectors[i]);
    }
}

#[test]
fn test_search() {
    let config = VectorConfig::new(3);
    let store = VectorStore::new(config).unwrap();

    let vectors = vec![vec![1.0, 0.0, 0.0], vec![0.9, 0.1, 0.0], vec![0.0, 1.0, 0.0]];

    let metadata = vec![None, None, None];
    let ids = insert_batch(&store, &vectors, &metadata).unwrap();

    let query = vec![1.0, 0.0, 0.0];
    let results = search(&store, &query, 2).unwrap();

    assert_eq!(results.len(), 2);
    assert!(results[0].similarity > results[1].similarity);
    assert_eq!(results[0].id, ids[0]);
    assert!((results[0].similarity - 1.0).abs() < 1e-6);
    assert_eq!(results[1].id, ids[1]);
}

#[test]
fn test_delete() {
    let config = VectorConfig::new(3);
    let store = VectorStore::new(config).unwrap();

    let v = vec![1.0, 2.0, 3.0];
    let id = insert(&store, &v, None).unwrap();

    assert!(store.delete(id).unwrap());
    assert_eq!(store.count().unwrap(), 0);
}

#[test]
fn delete_removes_one_row_and_ids_are_not_reused() {
    let store = VectorStore::new(VectorConfig::new(2)).unwrap();
    let a = insert(&store, &[1.0, 0.0], None).unwrap();
    let b = insert(&store, &[0.0, 1.0], None).unwrap();
    assert_eq!(store.count().unwrap(), 2);
    assert!(store.delete(b).unwrap());
    assert_eq!(store.count().unwrap(), 1);
    assert!(store.get(b).unwrap().is_none());
    assert!(store.get(a).unwrap().is_some());
    assert!(!store.delete(b).unwrap());
    assert_eq!(store.count().unwrap(), 1);
    let c = insert(&store, &[1.0, 1.0], None).unwrap();
    assert!(c > b);
}

#[test]
fn test_empty_vector_rejection() {
    let config = VectorConfig::new(128);
    let store = VectorStore::new(config).unwrap();

    let empty_vec: Vec<f32> = vec![];
    let result = insert(&store, &empty_vec, None);

    assert!(result.is_err());
    assert!(matches!(result.unwrap_err(), VectorError::DimensionMismatch { .. }));
}

#[test]
fn test_zero_vector_handling() {
    let config = VectorConfig::new(128);
    let store = VectorStore::new(config).unwrap();

    let zero_vec = vec![0.0; 128];
    let id = insert(&store, &zero_vec, None).unwrap();

    assert!(id > 0);

    let results = search(&store, &zero_vec, 1).unwrap();
    assert_eq!(results.len(), 1);
}

#[test]
fn test_nan_values_handling() {
    let config = VectorConfig::new(3);
    let store = VectorStore::new(config).unwrap();

    let mut nan_vec = vec![1.0, 2.0, 3.0];
    nan_vec[1] = f32::NAN;

    let result = insert(&store, &nan_vec, None);
    assert!(result.is_ok() || result.is_err());
}

#[test]
fn test_infinity_values_handling() {
    let config = VectorConfig::new(3);
    let store = VectorStore::new(config).unwrap();

    let inf_vec = vec![1.0, f32::INFINITY, 3.0];
    let result = insert(&store, &inf_vec, None);

    assert!(result.is_ok() || result.is_err());
}

#[test]
fn test_very_large_dimensions() {
    let config = VectorConfig::new(4096);
    let store = VectorStore::new(config).unwrap();

    let large_vec = vec![1.0; 4096];
    let id = insert(&store, &large_vec, None).unwrap();

    assert!(id > 0);

    let results = search(&store, &large_vec, 1).unwrap();
    assert_eq!(results.len(), 1);
}

#[test]
fn test_single_dimension_vector() {
    let config = VectorConfig::new(1);
    let store = VectorStore::new(config).unwrap();

    let single_vec = vec![42.0];
    let id = insert(&store, &single_vec, None).unwrap();

    assert!(id > 0);

    let results = search(&store, &single_vec, 1).unwrap();
    assert_eq!(results.len(), 1);
    assert!((results[0].similarity - 1.0).abs() < 1e-6);
}

#[test]
fn test_negative_values() {
    let config = VectorConfig::new(3);
    let store = VectorStore::new(config).unwrap();

    let neg_vec = vec![-1.0, -2.0, -3.0];
    let id = insert(&store, &neg_vec, None).unwrap();

    assert!(id > 0);

    let results = search(&store, &neg_vec, 1).unwrap();
    assert_eq!(results.len(), 1);
}

#[test]
fn test_mixed_sign_vectors() {
    let config = VectorConfig::new(4);
    let store = VectorStore::new(config).unwrap();

    let vectors =
        vec![vec![1.0, -1.0, 1.0, -1.0], vec![-1.0, 1.0, -1.0, 1.0], vec![1.0, 1.0, -1.0, -1.0]];

    let metadata = vec![None, None, None];
    insert_batch(&store, &vectors, &metadata).unwrap();

    let query = vec![1.0, -1.0, 1.0, -1.0];
    let results = search(&store, &query, 3).unwrap();

    assert_eq!(results.len(), 3);
    assert!(results[0].similarity >= results[1].similarity);
}

#[test]
fn test_very_small_values() {
    let config = VectorConfig::new(3);
    let store = VectorStore::new(config).unwrap();

    let tiny_vec = vec![1e-10, 2e-10, 3e-10];
    let id = insert(&store, &tiny_vec, None).unwrap();

    assert!(id > 0);

    let results = search(&store, &tiny_vec, 1).unwrap();
    assert_eq!(results.len(), 1);
}

#[test]
fn test_very_large_values() {
    let config = VectorConfig::new(3);
    let store = VectorStore::new(config).unwrap();

    let large_vec = vec![1e10, 2e10, 3e10];
    let id = insert(&store, &large_vec, None).unwrap();

    assert!(id > 0);

    let results = search(&store, &large_vec, 1).unwrap();
    assert_eq!(results.len(), 1);
}

#[test]
fn test_duplicate_vectors() {
    let config = VectorConfig::new(3);
    let store = VectorStore::new(config).unwrap();

    let vec = vec![1.0, 2.0, 3.0];

    let id1 = insert(&store, &vec, None).unwrap();
    let id2 = insert(&store, &vec, None).unwrap();
    let id3 = insert(&store, &vec, None).unwrap();

    assert_ne!(id1, id2);
    assert_ne!(id2, id3);
    assert_eq!(store.count().unwrap(), 3);

    let results = search(&store, &vec, 3).unwrap();
    assert_eq!(results.len(), 3);
}

#[test]
fn test_search_k_larger_than_database() {
    let config = VectorConfig::new(3);
    let store = VectorStore::new(config).unwrap();

    let vectors = vec![vec![1.0, 0.0, 0.0], vec![0.0, 1.0, 0.0]];

    let metadata = vec![None, None];
    insert_batch(&store, &vectors, &metadata).unwrap();

    let results = search(&store, &vec![1.0, 0.0, 0.0], 100).unwrap();

    assert_eq!(results.len(), 2);
}

#[test]
fn test_search_k_zero() {
    let config = VectorConfig::new(3);
    let store = VectorStore::new(config).unwrap();

    let vec = vec![1.0, 2.0, 3.0];
    insert(&store, &vec, None).unwrap();

    let results = search(&store, &vec, 0).unwrap();
    assert_eq!(results.len(), 0);
}

#[test]
fn test_delete_nonexistent_id() {
    let config = VectorConfig::new(3);
    let store = VectorStore::new(config).unwrap();

    let deleted = store.delete(99999).unwrap();
    assert!(!deleted);
}

#[test]
fn test_get_nonexistent_id() {
    let config = VectorConfig::new(3);
    let store = VectorStore::new(config).unwrap();

    let result = store.get(99999).unwrap();
    assert!(result.is_none());
}

#[test]
fn test_empty_metadata() {
    let config = VectorConfig::new(3);
    let store = VectorStore::new(config).unwrap();

    let vec = vec![1.0, 2.0, 3.0];
    let id = insert(&store, &vec, Some("")).unwrap();

    assert!(id > 0);
}

#[test]
fn test_very_long_metadata() {
    let config = VectorConfig::new(3);
    let store = VectorStore::new(config).unwrap();

    let long_metadata = "x".repeat(10000);
    let vec = vec![1.0, 2.0, 3.0];
    let id = insert(&store, &vec, Some(&long_metadata)).unwrap();

    assert!(id > 0);
}

#[test]
fn test_unicode_metadata() {
    let config = VectorConfig::new(3);
    let store = VectorStore::new(config).unwrap();

    let unicode_meta = "Hello 世界 🌍 مرحبا";
    let vec = vec![1.0, 2.0, 3.0];
    let id = insert(&store, &vec, Some(unicode_meta)).unwrap();

    assert!(id > 0);
}

#[test]
fn test_batch_insert_empty() {
    let config = VectorConfig::new(3);
    let store = VectorStore::new(config).unwrap();

    let vectors: Vec<Vec<f32>> = vec![];
    let metadata: Vec<Option<&str>> = vec![];
    let ids = insert_batch(&store, &vectors, &metadata).unwrap();

    assert_eq!(ids.len(), 0);
}

#[test]
fn test_batch_insert_mismatched_lengths() {
    let config = VectorConfig::new(3);
    let store = VectorStore::new(config).unwrap();

    let vectors = vec![vec![1.0, 2.0, 3.0]];
    let metadata = vec![None, None];

    let result = insert_batch(&store, &vectors, &metadata);
    assert!(result.is_err());
    match result {
        Err(VectorError::InvalidVector(message)) => {
            assert_eq!(message, "Vectors and metadata length mismatch");
        }
        _ => panic!("the lists were not refused"),
    }
    assert_eq!(store.count().unwrap(), 0);
}

#[test]
fn batch_with_a_wrong_vector_writes_nothing() {
    let store = VectorStore::new(VectorConfig::new(3)).unwrap();
    insert(&store, &[1.0, 1.0, 1.0], None).unwrap();
    let before = store.count().unwrap();
    for bad in 0..3usize {
        let mut vectors = vec![vec![1.0, 0.0, 0.0], vec![0.0, 1.0, 0.0], vec![0.0, 0.0, 1.0]];
        vectors[bad] = vec![1.0; 4 + bad];
        match insert_batch(&store, &vectors, &[None, None, None]) {
            Err(VectorError::DimensionMismatch { expected, actual }) => {
                assert_eq!(expected, 3);
                assert_eq!(actual, 4 + bad);
            }
            _ => panic!("the batch was not refused"),
        }
        assert_eq!(store.count().unwrap(), before);
    }
    let ids = insert_batch(&store, &[vec![1.0, 0.0, 0.0]], &[None]).unwrap();
    assert_eq!(ids.len(), 1);
    assert_eq!(store.count().unwrap(), before + 1);
}

#[test]
fn batch_names_the_first_wrong_vector() {
    let vectors = vec![vec![0u32; 3], vec![0u32; 5], vec![0u32; 7]];
    match validate_batch(3, &vectors, 3) {
        Err(VectorError::DimensionMismatch { expected, actual }) => {
            assert_eq!(expected, 3);
            assert_eq!(actual, 5);
        }
        _ => panic!("the batch was not refused"),
    }
    assert!(validate_batch(3, &vectors[..1], 1).is_ok());
    assert!(validate_batch(3, &[], 0).is_ok());
    assert!(matches!(validate_batch(3, &vectors[..1], 2), Err(VectorError::InvalidVector(_))));
    assert!(matches!(validate_batch(3, &vectors, 2), Err(VectorError::InvalidVector(_))));
}

#[test]
fn a_row_that_the_database_refuses_rolls_the_batch_back() {
    let store = VectorStore::new(VectorConfig::new(1)).unwrap();
    let vectors = vec![vec![1.0f32.to_bits()], vec![2.0f32.to_bits()]];
    let norms = vec![Value::Real(1.0), Value::Null];
    let result = store.insert_batch(&vectors, &norms, &[None, None]);
    assert!(matches!(result, Err(VectorError::Sqlite(_))));
    assert_eq!(store.count().unwrap(), 0);
    let short = store.insert_batch(&vectors, &norms[..1], &[None, None]);
    assert!(matches!(short, Err(VectorError::InvalidVector(_))));
    let id = insert(&store, &[1.0], None).unwrap();
    assert_eq!(store.count().unwrap(), 1);
    assert!(id > 0);
}

#[test]
fn test_search_with_threshold() {
    let config = VectorConfig::new(3);
    let store = VectorStore::new(config).unwrap();

    let vectors = vec![
        vec![1.0, 0.0, 0.0],
        vec![0.9, 0.1, 0.0],
        vec![0.5, 0.5, 0.0],
        vec![0.0, 1.0, 0.0],
    ];

    let metadata = vec![None, None, None, None];
    insert_batch(&store, &vectors, &metadata).unwrap();

    let query = vec![1.0, 0.0, 0.0];

    let results_high = search_with_threshold(&store, &query, 10, 0.9).unwrap();
    let results_low = search_with_threshold(&store, &query, 10, 0.5).unwrap();

    assert!(results_high.len() <= results_low.len());
    assert!(results_high.iter().all(|r| r.similarity >= 0.9));
}

#[test]
fn test_stats_on_empty_database() {
    let config = VectorConfig::new(128);
    let store = VectorStore::new(config).unwrap();

    let stats = store.stats().unwrap();
    assert_eq!(stats.vector_count, 0);
    assert_eq!(stats.dimension, 128);
}

#[test]
fn stats_count_rows_and_bytes() {
    let store = VectorStore::new(VectorConfig::new(4)).unwrap();
    for i in 0..10 {
        insert(&store, &[i as f32, 1.0, 2.0, 3.0], None).unwrap();
    }
    let stats = store.stats().unwrap();
    assert_eq!(stats.vector_count, 10);
    assert_eq!(stats.dimension, 4);
    assert!(stats.size_bytes > 0);
    assert_eq!(store.dimension(), 4);
}

#[test]
fn statistics_multiply_used_pages_by_page_size() {
    let stats = storage_stats(7, 10, 3, 4096, 16).unwrap();
    assert_eq!(stats.vector_count, 7);
    assert_eq!(stats.size_bytes, 28672);
    assert_eq!(stats.dimension, 16);
    assert_eq!(storage_stats(0, 0, 0, 4096, 1).unwrap().size_bytes, 0);
    assert_eq!(storage_stats(0, 1, 2, 512, 1).unwrap().size_bytes, -512);
    assert_eq!(storage_stats(0, i64::MAX, 0, 1, 1).unwrap().size_bytes, i64::MAX);
    assert_eq!(storage_stats(0, i64::MIN, i64::MAX, 0, 1).unwrap().size_bytes, 0);
    match storage_stats(0, i64::MAX, 0, 2, 1) {
        Err(VectorError::Index(message)) => assert_eq!(message, "Database size out of range"),
        _ => panic!("the size was not refused"),
    }
    assert!(matches!(storage_stats(0, i64::MIN, 1, 1, 1), Err(VectorError::Index(_))));
}

#[test]
fn persistent_mode_is_refused_in_memory() {
    let config = VectorConfig::new(3).with_storage_mode(StorageMode::Persistent);
    match VectorStore::new(config) {
        Err(VectorError::Config(message)) => {
            assert_eq!(message, "Use new_persistent() for persistent storage");
        }
        _ => panic!("the configuration was not refused"),
    }
}

#[test]
fn settings_follow_the_configuration() {
    let plan = connection_settings(&VectorConfig::new(3));
    assert_eq!(
        plan,
        vec![
            Pragma::JournalModeWal,
            Pragma::CacheSize(-2000),
            Pragma::MmapSize(67_108_864),
            Pragma::SynchronousNormal,
            Pragma::TempStoreMemory,
        ]
    );
    let mut config = VectorConfig::new(3).with_wal(false).with_cache_size(500);
    config.mmap_size = None;
    assert_eq!(
        connection_settings(&config),
        vec![Pragma::CacheSize(500), Pragma::SynchronousNormal, Pragma::TempStoreMemory]
    );
    config.mmap_size = Some(usize::MAX);
    assert_eq!(connection_settings(&config)[1], Pragma::MmapSize(usize::MAX as i64));
}

#[test]
fn the_store_applies_its_settings() {
    let store = VectorStore::new(VectorConfig::new(3).with_cache_size(-1234)).unwrap();
    let cache: i64 =
        store.connection().query_row("PRAGMA cache_size", [], |row| row.get(0)).unwrap();
    assert_eq!(cache, -1234);
    let temp: i64 = store.connection().query_row("PRAGMA temp_store", [], |row| row.get(0)).unwrap();
    assert_eq!(temp, 2);
    let indexes = get_index_stats(store.connection(), "vectors").unwrap();
    assert!(indexes.iter().any(|s| s.name == "idx_vectors_vectors_id"));
}

#[test]
fn rows_are_read_in_their_order() {
    let rows = vec![(4i64, vec![0u8, 0, 128, 63]), (9i64, vec![]), (2i64, vec![1u8, 0, 0, 0, 2, 0, 0, 0])];
    let candidates = decode_candidates(&rows).unwrap();
    assert_eq!(candidates.len(), 3);
    assert_eq!(candidates[0].id, 4);
    assert_eq!(candidates[0].vector, vec![0x3f80_0000]);
    assert_eq!(candidates[1].id, 9);
    assert_eq!(candidates[1].vector, Vec::<u32>::new());
    assert_eq!(candidates[2].id, 2);
    assert_eq!(candidates[2].vector, vec![1, 2]);
    let ragged = vec![(1i64, vec![0u8, 0, 0, 0]), (2i64, vec![0u8, 0, 0])];
    assert!(matches!(decode_candidates(&ragged), Err(VectorError::InvalidVector(_))));
}

#[test]
fn a_found_row_is_read_as_a_vector() {
    assert_eq!(decode_row(None).unwrap(), None);
    assert_eq!(decode_row(Some(vec![1, 0, 0, 0])).unwrap(), Some(vec![1u32]));
    assert_eq!(decode_row(Some(vec![])).unwrap(), Some(Vec::<u32>::new()));
    assert!(matches!(decode_row(Some(vec![1, 0, 0])), Err(VectorError::InvalidVector(_))));
}

#[test]
fn a_ragged_blob_in_the_table_is_refused_on_reading() {
    let store = VectorStore::new(VectorConfig::new(1)).unwrap();
    store
        .connection()
        .execute("INSERT INTO vectors (vector, norm, metadata) VALUES (x'010203', 1.0, NULL)", [])
        .unwrap();
    assert!(matches!(store.get(1), Err(VectorError::InvalidVector(_))));
    assert!(matches!(search(&store, &[1.0], 1), Err(VectorError::InvalidVector(_))));
}

#[test]
fn candidates_lie_in_the_norm_window() {
    let store = VectorStore::new(VectorConfig::new(2)).unwrap();
    let a = insert(&store, &[1.0, 0.0], None).unwrap();
    let b = insert(&store, &[10.0, 0.0], None).unwrap();
    let c = insert(&store, &[0.0, 1.2], None).unwrap();
    let results = search(&store, &[1.0, 0.0], 10).unwrap();
    let found: Vec<i64> = results.iter().map(|r| r.id).collect();
    assert_eq!(found, vec![a, c]);
    assert!(!found.contains(&b));
    let all = store.candidates(&bits(&[1.0, 0.0]), &as_real(0.0), &as_real(100.0)).unwrap();
    assert_eq!(all.iter().map(|x| x.id).collect::<Vec<i64>>(), vec![a, b, c]);
    assert_eq!(floats(&all[1].vector), vec![10.0, 0.0]);
}

#[test]
fn property_orthogonal_vectors() {
    let config = VectorConfig::new(8);
    let store = VectorStore::new(config).unwrap();

    for i in 0..8 {
        let mut vec = vec![0.0; 8];
        vec[i] = 1.0;
        insert(&store, &vec, None).unwrap();
    }

    let query = vec![1.0, 0.0, 0.0, 0.0, 0.0, 0.0, 0.0, 0.0];
    let results = search(&store, &query, 8).unwrap();

    assert!((results[0].similarity - 1.0).abs() < 1e-5);

    for i in 1..results.len() {
        assert!(
            results[i].similarity.abs() < 1e-5,
            "Non-zero similarity for orthogonal vector: {}",
            results[i].similarity
        );
    }
}

#[test]
fn every_basis_vector_matches_itself_only() {
    let store = VectorStore::new(VectorConfig::new(8)).unwrap();
    let mut ids = Vec::new();
    for i in 0..8 {
        let mut vec = vec![0.0; 8];
        vec[i] = 1.0;
        ids.push(insert(&store, &vec, None).unwrap());
    }
    for i in 0..8 {
        let mut query = vec![0.0; 8];
        query[i] = 1.0;
        let results = search(&store, &query, 8).unwrap();
        assert_eq!(results.len(), 8);
        assert_eq!(results[0].id, ids[i]);
        assert!((results[0].similarity - 1.0).abs() < 1e-5);
        for r in &results[1..] {
            assert!(r.similarity.abs() < 1e-5);
        }
    }
}

#[test]
fn property_results_ordered() {
    let store = VectorStore::new(VectorConfig::new(32)).unwrap();
    let mut state: u32 = 11;
    for _ in 0..100 {
        insert(&store, &pseudo_random(&mut state, 32), None).unwrap();
    }
    let query = pseudo_random(&mut state, 32);
    let results = search(&store, &query, 20).unwrap();
    for i in 1..results.len() {
        assert!(
            results[i - 1].similarity >= results[i].similarity,
            "Results not ordered: {} < {}",
            results[i - 1].similarity,
            results[i].similarity
        );
    }
}

#[test]
fn property_insert_retrieve_identity() {
    let store = VectorStore::new(VectorConfig::new(64)).unwrap();
    let mut state: u32 = 23;
    for _ in 0..50 {
        let vec = pseudo_random(&mut state, 64);
        let id = insert(&store, &vec, None).unwrap();
        let retrieved = floats(&store.get(id).unwrap().unwrap());
        for (i, (a, b)) in vec.iter().zip(retrieved.iter()).enumerate() {
            assert_eq!(a, b, "Vector mismatch at index {}: {} != {}", i, a, b);
        }
        assert_eq!(retrieved.len(), 64);
    }
}

#[test]
fn property_delete_reduces_count() {
    let store = VectorStore::new(VectorConfig::new(32)).unwrap();
    let mut state: u32 = 31;
    let mut ids = Vec::new();
    for _ in 0..50 {
        ids.push(insert(&store, &pseudo_random(&mut state, 32), None).unwrap());
    }
    assert_eq!(store.count().unwrap(), 50);
    for id in ids {
        let count_before = store.count().unwrap();
        let deleted = store.delete(id).unwrap();
        assert!(deleted);
        let count_after = store.count().unwrap();
        assert_eq!(count_after, count_before - 1, "Delete should reduce count by 1");
        assert!(store.get(id).unwrap().is_none());
    }
}

#[test]
fn property_batch_equals_individual() {
    let config = VectorConfig::new(32);
    let store1 = VectorStore::new(config.clone()).unwrap();
    let store2 = VectorStore::new(config).unwrap();
    let mut state: u32 = 41;
    let mut vectors = Vec::new();
    for _ in 0..20 {
        vectors.push(pseudo_random(&mut state, 32));
    }
    for vec in &vectors {
        insert(&store1, vec, None).unwrap();
    }
    let metadata: Vec<Option<&str>> = vec![None; vectors.len()];
    insert_batch(&store2, &vectors, &metadata).unwrap();
    assert_eq!(store1.count().unwrap(), store2.count().unwrap());
}

#[test]
fn property_k_controls_count() {
    let store = VectorStore::new(VectorConfig::new(32)).unwrap();
    let mut state: u32 = 53;
    for _ in 0..100 {
        insert(&store, &pseudo_random(&mut state, 32), None).unwrap();
    }
    let query = pseudo_random(&mut state, 32);
    for k in [1usize, 5, 10, 20, 50, 100] {
        let results = search(&store, &query, k).unwrap();
        assert_eq!(results.len(), k.min(100), "Expected {} results, got {}", k.min(100), results.len());
    }
}

#[test]
fn test_persistent_storage() {
    let config = VectorConfig::new(3);
    let temp_dir = tempfile::TempDir::new().unwrap();
    let db_path = temp_dir.path().join("test.db");

    {
        let store = VectorStore::new_persistent(&db_path, config.clone()).unwrap();
        let vec = vec![1.0, 2.0, 3.0];
        insert(&store, &vec, Some("test")).unwrap();
        assert_eq!(store.count().unwrap(), 1);
    }

    {
        let store = VectorStore::new_persistent(&db_path, config).unwrap();
        assert_eq!(store.count().unwrap(), 1);
        assert_eq!(floats(&store.get(1).unwrap().unwrap()), vec![1.0, 2.0, 3.0]);
        let id = insert(&store, &[4.0, 5.0, 6.0], None).unwrap();
        assert_eq!(id, 2);
    }
}

#[test]
fn a_path_that_cannot_be_opened_is_a_database_error() {
    let temp_dir = tempfile::TempDir::new().unwrap();
    let missing = temp_dir.path().join("no_such_directory").join("test.db");
    let result = VectorStore::new_persistent(&missing, VectorConfig::new(3));
    match result {
        Err(e) => {
            assert!(matches!(e, VectorError::Sqlite(_)));
            assert!(e.message().starts_with("SQLite error: "));
            assert!(e.message().len() > "SQLite error: ".len());
        }
        Ok(_) => panic!("the path was opened"),
    }
}

#[test]
fn statements_name_the_table() {
    assert_eq!(
        schema_sql("vectors"),
        "CREATE TABLE IF NOT EXISTS vectors (id INTEGER PRIMARY KEY AUTOINCREMENT, vector BLOB NOT NULL, norm REAL NOT NULL, metadata TEXT)"
    );
    assert_eq!(
        insert_sql("vectors"),
        "INSERT INTO vectors (vector, norm, metadata) VALUES (?1, ?2, ?3)"
    );
    assert_eq!(select_sql("vectors"), "SELECT vector FROM vectors WHERE id = ?1");
    assert_eq!(
        window_sql("t"),
        "SELECT id, vector FROM t WHERE norm BETWEEN ?1 AND ?2 ORDER BY id"
    );
    assert_eq!(delete_sql("t"), "DELETE FROM t WHERE id = ?1");
    assert_eq!(count_sql("t"), "SELECT COUNT(*) FROM t");
}

#[test]
fn a_row_is_removed_when_the_database_changed_one() {
    assert!(!row_was_removed(0));
    assert!(row_was_removed(1));
    assert!(row_was_removed(usize::MAX));
}

#[test]
fn one_hundred_vectors_in_one_batch() {
    let config = VectorConfig::new(128).with_wal(true).with_cache_size(-2000);
    let store = VectorStore::new(config).unwrap();

    let mut vectors = Vec::new();
    for i in 0..100 {
        let mut v = vec![0.0; 128];
        v[i % 128] = 1.0;
        vectors.push(v);
    }
    let metadata: Vec<Option<&str>> = (0..100).map(|_| None).collect();
    let ids = insert_batch(&store, &vectors, &metadata).unwrap();

    assert_eq!(ids.len(), 100);
    assert_eq!(store.count().unwrap(), 100);

    let results = search(&store, &vectors[3], 10).unwrap();
    assert_eq!(results.len(), 10);
    assert_eq!(results[0].id, ids[3]);
    assert!(results[0].similarity > 0.0);

    let stats = store.stats().unwrap();
    assert_eq!(stats.vector_count, 100);
    assert_eq!(stats.dimension, 128);
    assert!(stats.size_bytes > 0);
}

#[test]
fn test_end_to_end() {
    let config = VectorConfig::new(128).with_wal(true).with_cache_size(-2000);

    let store = VectorStore::new(config).unwrap();

    let mut vectors = Vec::new();
    for i in 0..100 {
        let mut v = vec![0.0; 128];
        v[i % 128] = 1.0;
        vectors.push(v);
    }

    let metadata: Vec<Option<&str>> = (0..100).map(|_| None).collect();
    let ids = insert_batch(&store, &vectors, &metadata).unwrap();

    assert_eq!(ids.len(), 100);
    assert_eq!(store.count().unwrap(), 100);

    // The query of all ones has the norm of the square root of 128, so its
    // window reaches from about 7.9 to about 14.7. Every stored vector has
    // norm 1 and lies outside of it: the search scores no row and finds
    // none, although each row has a similarity above zero with the query.
    let query = vec![1.0; 128];
    assert!(norm(&query) * 0.7 > 1.0);
    let results = search(&store, &query, 10).unwrap();
    assert_eq!(results.len(), 0);
    for v in &vectors {
        assert!(cosine(&query, v) > 0.0);
    }

    // A query that is as long as the stored vectors finds ten of them.
    let near = search(&store, &vectors[0], 10).unwrap();
    assert_eq!(near.len(), 10);
    assert!(near[0].similarity > 0.0);

    let stats = store.stats().unwrap();
    assert_eq!(stats.vector_count, 100);
    assert_eq!(stats.dimension, 128);
    assert!(stats.size_bytes > 0);
}

#[test]
fn page_accounting_statements_have_their_texts() {
    assert_eq!(page_count_sql(), "PRAGMA page_count");
    assert_eq!(page_size_sql(), "PRAGMA page_size");
    assert_eq!(freelist_count_sql(), "PRAGMA freelist_count");
}

#[test]
fn statistics_are_the_page_accounting_of_the_database() {
    let store = VectorStore::new(VectorConfig::new(4)).unwrap();
    for i in 0..50 {
        insert(&store, &[i as f32, 1.0, 2.0, 3.0], None).unwrap();
    }
    let ask = |sql: &str| -> i64 { store.connection().query_row(sql, [], |row| row.get(0)).unwrap() };
    let page_count = ask(page_count_sql());
    let page_size = ask(page_size_sql());
    let free = ask(freelist_count_sql());
    assert!(page_count > 0);
    assert!(page_size > 0);
    assert_ne!(page_count, ask("PRAGMA cache_size"));
    let stats = store.stats().unwrap();
    assert_eq!(stats.size_bytes, (page_count - free) * page_size);
    assert_eq!(stats.vector_count, 50);
    let put_together = storage_stats(50, page_count, free, page_size, 4).unwrap();
    assert_eq!(stats.size_bytes, put_together.size_bytes);
    assert_eq!(stats.dimension, put_together.dimension);
}
