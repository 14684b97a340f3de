//! The checked core of C bindings for the Lance columnar data format: adding
//! columns to a dataset, and merging rows into it.
//!
//! A C caller's arguments arrive as plain values: a pointer that may be NULL is an
//! `Option`, a C string its bytes. The functions here check them, report what is
//! wrong with them, and say what the storage engine is to do; the host around them
//! follows the raw pointers and runs the engine.

pub mod add_columns;
pub mod add_stream;
pub mod arrow_import;
pub mod error;
pub mod helpers;
pub mod merge_insert;
pub mod merge_params;
pub mod text;
