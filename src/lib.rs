//! A small SQL command layer: a dynamic value model, its mapping to and from
//! native column values, and the decisions that drive connections, queries,
//! statements and transactions against a single database file.
//!
//! The library does no file or database I/O. The connection manager and the transaction runner
//! are state machines: they say what to do next, and their caller does it
//! against the database and reports back what happened.

pub mod text;
pub mod value;
pub mod row;
pub mod envelope;
pub mod sql;
pub mod command;
pub mod transaction;
pub mod connection;
pub mod auth;
pub mod host;

pub use value::{Value, NativeValue, to_native_param, to_native_params, from_native_value};
pub use row::row_to_object;
pub use envelope::{DatabaseResult, DbError};
pub use sql::is_read_statement;
pub use command::{Statement, ExecSummary, query_outcome, execute_outcome, exec_outcome, parse_statement};
pub use transaction::{TxAction, TxEvent, TxPhase, TransactionRunner, runner_from_requests};
pub use connection::{ConnPhase, ConnAction, ConnEvent, ConnectionManager};
pub use auth::{auth_hash_password, auth_verify_password, auth_generate_token};
pub use host::{PathKind, path_kind};
