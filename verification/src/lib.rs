//! User records behind opaque tokens.
//!
//! A record is known inside the store by a sequential key and outside of it
//! by a 128-bit identifier, which is only ever shown as a token of twenty-two
//! characters.
//!
//! - [`code`] turns an identifier into its token and back.
//! - [`user`] is the record as callers hold it: transient, then persisted.
//! - [`db`] is what is asked of the store and what it answers, with the
//!   meaning of each statement on a table of records.
//! - [`model`] is the repository: which statement each operation sends, what
//!   each answer means, a table in memory that answers as the store does, and
//!   what holds of the operations on every table.
//! - [`routes`] serves the two requests.
//! - [`config`] makes the connection string of the store.
//!
//! Nothing here reads or writes outside of memory: a caller sends the
//! statements and hands the answers back.

pub mod code;
pub mod config;
pub mod db;
pub mod model;
pub mod routes;
pub mod user;
