//! Verified core logic of the Paimon Rust bindings: table types, HDFS path and
//! configuration handling, time-travel snapshot selection, ranged full-text index
//! reads, object-table column building, table loading decisions and the argument
//! checks of the blob-reader C interface.

pub mod blob_ffi;
pub mod error;
pub mod full_text;
pub mod object_table;
pub mod storage_hdfs;
pub mod table_loader;
pub mod table_type;
pub mod text;
pub mod time_travel;
