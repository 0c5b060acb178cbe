//! Student-records web service: the verified core.
//!
//! The HTTP server, the DuckDB connection, the MinIO client, the clock and
//! the reading of tokens live in the application around this crate. What they decide
//! lives here: every request handler is a small state machine that is told
//! what each database or storage operation returned and answers with the
//! next operation to run or the reply to send.

pub mod models;
pub mod reply;
pub mod text;
pub mod dates;
pub mod date_order;
pub mod passwords;
pub mod jwt;
pub mod flow;
pub mod script;
pub mod students;
pub mod users;
pub mod login;
pub mod guard;
pub mod uploads;
