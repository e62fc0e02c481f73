//! API-key issuance and validation for a small self-hosted todo service.
//!
//! The crate holds the key material generator, the encoding layer between
//! logical records and stored rows, an executable model of the store that
//! records the statements it issues, the validation service and the
//! endpoint logic, each with a machine-checked contract, and the laws of
//! the credential lifecycle.

pub mod auth;
pub mod db;
pub mod handlers;
pub mod keys;
pub mod laws;
pub mod like;
pub mod models;
pub mod order;
pub mod reply;
pub mod rows;
pub mod statements;
pub mod store;
