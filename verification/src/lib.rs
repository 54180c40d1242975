//! Derives, from the description of a record type, a companion type in which
//! every field may be absent, with the code that merges a companion value into
//! the record and the code that builds an all-absent companion value.

pub mod attributes;
pub mod emit;
pub mod error;
pub mod fields;
pub mod merge;
pub mod nested;
pub mod schema;
pub mod text;
pub mod tokens;

pub use crate::emit::{generate_optional_struct, optional_struct};
