//! Bidirectional bridge between a Parquet footer as decoded from its Thrift
//! wire form and a schema-aware, in-memory metadata model.
pub mod wire;
pub mod sort;
pub mod error;
pub mod schema;
pub mod row_group;
pub mod column_order;
pub mod file_metadata;
