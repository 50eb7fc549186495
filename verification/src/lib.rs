//! Vector storage over an embedded relational database: the stored form of
//! a vector, the ranking of search candidates, and the store itself.
//!
//! A vector is a list of IEEE-754 single-precision numbers, held here as
//! their bit patterns. The library writes and reads their stored form,
//! checks dimensions, issues the statements of the store and ranks scored
//! candidates. Norms and similarities are computed by the caller.

pub mod config;
pub mod database;
pub mod error;
pub mod indexes;
pub mod pragmas;
pub mod ranking;
pub mod similarity;
pub mod statements;
pub mod storage;

pub use config::{StorageMode, VectorConfig};
pub use error::VectorError;
pub use ranking::SearchResult;
pub use storage::{Candidate, StorageStats, VectorStore};
