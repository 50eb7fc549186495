use vstd::prelude::*;
use crate::config::VectorConfig;

verus! {

/// One setting that a store applies to its connection when it is opened.
#[derive(Debug, Clone, Copy, PartialEq, Eq, Structural)]
pub enum Pragma {
    /// Keep a write-ahead log.
    JournalModeWal,
    /// Page cache size.
    CacheSize(i64),
    /// Budget for memory-mapped I/O.
    MmapSize(i64),
    /// Sync at the critical moments only.
    SynchronousNormal,
    /// Keep temporary tables in memory.
    TempStoreMemory,
}

/// A byte budget as the database takes it: a signed 64-bit integer with
/// the same low 64 bits.
pub open spec fn as_signed(n: usize) -> int {
    if n <= i64::MAX {
        n as int
    } else {
        n - 0x1_0000_0000_0000_0000
    }
}

/// The settings that a configuration asks for, in the order in which they
/// are applied: the write-ahead log where it is wanted, the page cache size,
/// the memory-map budget where one is given, then normal syncing and
/// temporary tables in memory.
pub open spec fn settings_of(config: VectorConfig) -> Seq<Pragma> {
    let journal = if config.wal_mode {
        seq![Pragma::JournalModeWal]
    } else {
        Seq::<Pragma>::empty()
    };
    let cache = seq![Pragma::CacheSize(config.cache_size as i64)];
    let mmap = match config.mmap_size {
        Some(n) => seq![Pragma::MmapSize(as_signed(n) as i64)],
        None => Seq::<Pragma>::empty(),
    };
    journal + cache + mmap + seq![Pragma::SynchronousNormal, Pragma::TempStoreMemory]
}

/// Lists the settings that a configuration asks for.
pub fn connection_settings(config: &VectorConfig) -> (plan: Vec<Pragma>)
    ensures
        plan@ == settings_of(*config),
{
    let mut plan: Vec<Pragma> = Vec::new();
    if config.wal_mode {
        plan.push(Pragma::JournalModeWal);
    }
    plan.push(Pragma::CacheSize(config.cache_size as i64));
    match config.mmap_size {
        Some(n) => {
            let wide: u64 = n as u64;
            let signed: i64 = if wide <= 0x7fff_ffff_ffff_ffff {
                wide as i64
            } else {
                ((wide - 0x8000_0000_0000_0000) as i64) + i64::MIN
            };
            plan.push(Pragma::MmapSize(signed));
        },
        None => {},
    }
    plan.push(Pragma::SynchronousNormal);
    plan.push(Pragma::TempStoreMemory);
    assert(plan@ =~= settings_of(*config));
    plan
}

/// What a setting is set to: a word or a number.
#[derive(Debug, Clone, Copy)]
pub enum PragmaValue {
    Word(&'static str),
    Number(i64),
}

/// The name under which the database knows a setting.
pub open spec fn name_of(pragma: Pragma) -> Seq<char> {
    match pragma {
        Pragma::JournalModeWal => "journal_mode"@,
        Pragma::CacheSize(_) => "cache_size"@,
        Pragma::MmapSize(_) => "mmap_size"@,
        Pragma::SynchronousNormal => "synchronous"@,
        Pragma::TempStoreMemory => "temp_store"@,
    }
}

/// `value` is what the setting is set to: the word `WAL`, `NORMAL` or
/// `MEMORY`, or the number that the setting carries.
pub open spec fn is_value_of(pragma: Pragma, value: PragmaValue) -> bool {
    match pragma {
        Pragma::JournalModeWal => value matches PragmaValue::Word(w) && w@ == "WAL"@,
        Pragma::CacheSize(n) => value matches PragmaValue::Number(m) && m == n,
        Pragma::MmapSize(n) => value matches PragmaValue::Number(m) && m == n,
        Pragma::SynchronousNormal => value matches PragmaValue::Word(w) && w@ == "NORMAL"@,
        Pragma::TempStoreMemory => value matches PragmaValue::Word(w) && w@ == "MEMORY"@,
    }
}

/// Gives the name under which the database knows a setting.
pub fn pragma_name(pragma: Pragma) -> (name: &'static str)
    ensures
        name@ == name_of(pragma),
{
    match pragma {
        Pragma::JournalModeWal => "journal_mode",
        Pragma::CacheSize(_) => "cache_size",
        Pragma::MmapSize(_) => "mmap_size",
        Pragma::SynchronousNormal => "synchronous",
        Pragma::TempStoreMemory => "temp_store",
    }
}

/// Gives what a setting is set to.
pub fn pragma_value(pragma: Pragma) -> (value: PragmaValue)
    ensures
        is_value_of(pragma, value),
{
    match pragma {
        Pragma::JournalModeWal => PragmaValue::Word("WAL"),
        Pragma::CacheSize(pages) => PragmaValue::Number(pages),
        Pragma::MmapSize(bytes) => PragmaValue::Number(bytes),
        Pragma::SynchronousNormal => PragmaValue::Word("NORMAL"),
        Pragma::TempStoreMemory => PragmaValue::Word("MEMORY"),
    }
}

} // verus!
