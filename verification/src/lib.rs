//! A synchronization metadata ledger embedded in a SQLite-backed store.
//!
//! The accessor reads and writes singleton metadata rows (the remote sync
//! head), reads the partition allocation tables, and derives the bounds of
//! the local transaction log. Every operation runs inside a transaction
//! supplied by the caller; nothing here opens, commits or rolls back one.

pub mod errors;
pub mod metadata;
pub mod partitions;
pub mod schema;
mod sql;
pub mod types;

pub use errors::TolstoyError;
pub use metadata::PartitionsTable;
pub use metadata::SyncMetadataClient;
pub use partitions::Partition;
pub use partitions::PartitionMap;
pub use types::Entid;
pub use types::Uuid;
