//! Write path of a self-describing columnar storage segment.
//!
//! A segment is a single byte stream holding any number of named, typed
//! columns, each written as an opaque byte run, followed by a sorted index
//! mapping each column key to the byte range of its payload, and an 8-byte
//! little-endian trailer giving the index's length.

pub mod column_type;
pub mod dict;
pub mod keys;
mod serializer;
pub mod stream;

pub use column_type::{Cardinality, ColumnType, ColumnTypeAndCardinality};
pub use keys::{column_key, lex_lt, prepare_key};
pub use serializer::{entries_wf, ColumnSerializer, ColumnarSerializer};
