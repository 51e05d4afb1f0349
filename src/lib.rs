//! Data-access layer for an `items` table: record types, default-fill on
//! create, the partial-update merge, connection-pool settings, and an
//! in-memory item store with the same operation set as the relational one.

pub mod error;
pub mod model;
pub mod pool;
pub mod store;
pub mod laws;
