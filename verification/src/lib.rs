//! Request logic of a read-only Bible API: the canon of books, the SQL
//! queries that the endpoints send, text search, and chapter navigation.
//! The functions are verified, but for the calls into std and rand whose
//! contracts are trusted (`text::to_upper`, `text::trim`, and the random draw
//! in `verses`); database and network I/O live with the caller.

pub mod text;
pub mod canon;
pub mod query;
pub mod errors;
pub mod sql;
pub mod verses;
pub mod search;
pub mod nav;
