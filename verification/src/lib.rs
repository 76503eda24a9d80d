//! Conversions between Rust values and the binary format of Postgres values.
pub mod codec;
pub mod error;
pub mod hstore;
pub mod inet;
pub mod json;
pub mod laws;
pub mod raw;
pub mod reader;
pub mod sql;
pub mod text;
pub mod types;
pub mod wire;
