//! A data manager written against an abstract database.
//!
//! [`Database`] says what every backend offers: it announces a connection and
//! answers a query with rows of text. [`DataManager`] owns one backend and
//! knows it through that trait alone, so a backend can be exchanged without
//! touching the manager. Backends emit no output themselves: each notice they
//! produce is appended to a list of lines that the caller hands in, in the
//! order in which it was produced.

pub mod backends;
pub mod database;
pub mod manager;

pub use backends::{MySQLDatabase, PostgreSQLDatabase};
pub use database::{make_query_notice, Database};
pub use manager::DataManager;
