use vstd::prelude::*;

verus! {

/// Where a store keeps its rows.
#[derive(Debug, Clone, Copy, PartialEq, Eq, Structural)]
pub enum StorageMode {
    InMemory,
    Persistent,
}

/// The settings of a store. A store reads them once, when it is opened.
#[derive(Debug, Clone, Copy)]
pub struct VectorConfig {
    /// Number of components of every vector of the store.
    pub dimension: usize,
    /// Whether the rows live in memory or in a file.
    pub storage_mode: StorageMode,
    /// Whether the database keeps a write-ahead log.
    pub wal_mode: bool,
    /// Budget for memory-mapped I/O, in bytes.
    pub mmap_size: Option<usize>,
    /// Page cache size: a number of pages, or, negated, a number of KiB.
    pub cache_size: i32,
    /// Number of vectors that a caller should hand over in one batch.
    pub batch_size: usize,
    /// Whether the wide-lane similarity kernel is asked for.
    pub enable_simd: bool,
}

/// The settings that `VectorConfig::new` starts from, for `dimension`.
pub open spec fn initial_config(dimension: usize) -> VectorConfig {
    VectorConfig {
        dimension,
        storage_mode: StorageMode::InMemory,
        wal_mode: true,
        mmap_size: Some(67_108_864usize),
        cache_size: -2000i32,
        batch_size: 1000,
        enable_simd: true,
    }
}

impl Default for VectorConfig {
    /// Settings for vectors of 1536 components.
    fn default() -> (c: Self)
        ensures
            c == initial_config(1536),
    {
        VectorConfig {
            dimension: 1536,
            storage_mode: StorageMode::InMemory,
            wal_mode: true,
            mmap_size: Some(67_108_864usize),
            cache_size: -2000,
            batch_size: 1000,
            enable_simd: true,
        }
    }
}

impl VectorConfig {
    /// Settings for an in-memory store of vectors of `dimension` components:
    /// write-ahead log on, 64 MiB of memory-mapped I/O, a page cache of
    /// 2000 KiB, batches of 1000.
    pub fn new(dimension: usize) -> (c: Self)
        ensures
            c == initial_config(dimension),
    {
        VectorConfig {
            dimension,
            storage_mode: StorageMode::InMemory,
            wal_mode: true,
            mmap_size: Some(67_108_864usize),
            cache_size: -2000,
            batch_size: 1000,
            enable_simd: true,
        }
    }

    /// The same settings with another storage mode.
    pub fn with_storage_mode(self, mode: StorageMode) -> (c: Self)
        ensures
            c == (VectorConfig { storage_mode: mode, ..self }),
    {
        VectorConfig { storage_mode: mode, ..self }
    }

    /// The same settings with the write-ahead log switched on or off.
    pub fn with_wal(self, enabled: bool) -> (c: Self)
        ensures
            c == (VectorConfig { wal_mode: enabled, ..self }),
    {
        VectorConfig { wal_mode: enabled, ..self }
    }

    /// The same settings with another page cache size.
    pub fn with_cache_size(self, size: i32) -> (c: Self)
        ensures
            c == (VectorConfig { cache_size: size, ..self }),
    {
        VectorConfig { cache_size: size, ..self }
    }

    /// The same settings with another batch size.
    pub fn with_batch_size(self, size: usize) -> (c: Self)
        ensures
            c == (VectorConfig { batch_size: size, ..self }),
    {
        VectorConfig { batch_size: size, ..self }
    }

    /// The same settings with the wide-lane kernel asked for or not.
    pub fn with_simd(self, enabled: bool) -> (c: Self)
        ensures
            c == (VectorConfig { enable_simd: enabled, ..self }),
    {
        VectorConfig { enable_simd: enabled, ..self }
    }
}

} // verus!
