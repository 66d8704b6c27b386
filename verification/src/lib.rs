//! Formulary service: the decisions of a small read-only HTTP service over a
//! drug formulary, and of the loader that fills its store from a CSV export.
//!
//! Nothing here performs I/O. The read operations take the store's answers and
//! decide the responses; the loader is a state machine whose caller talks to
//! the store and to the source file.

pub mod cli;
pub mod db;
pub mod handlers;
pub mod hierarchy;
pub mod idempotence;
pub mod laws;
pub mod lineage;
pub mod load;
pub mod models;
pub mod record;
pub mod routes;
pub mod row;
pub mod run;
pub mod seeder;
pub mod store;
pub mod text;
