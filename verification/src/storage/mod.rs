//! The clip store: where it lives, what state it is in, and the decisions
//! every step that reads or replaces it takes. The database itself is reached
//! through SQLite, where the bytes are; what is decided about what SQLite
//! answered is decided here.

pub mod classify;
pub mod paths;
pub mod schema;
pub mod recovery;
pub mod status;
pub mod connection;
pub mod convert;
pub mod clips;
