//! Row mappings for SQLite: the traits that a mapped struct implements, the SQL
//! statements that follow from a mapping, and the generators that write the
//! implementations of those traits for a struct, as Rust source text.

pub mod derive_from_row;
pub mod derive_sqlite;
pub mod derive_sqlite_value;
pub mod derive_to_row;
pub mod error;
pub mod fields;
pub mod generics;
pub mod rusqlite_from_row;
pub mod text;
pub mod to_row;
pub mod types_impl;

pub use to_row::{SqliteTypeInfo, ToRow};
