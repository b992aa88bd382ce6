//! A small feature-flag store: a set of named boolean flags kept in one
//! SQLite table, together with the pieces the two front ends are built from —
//! a command-line surface that renders plain-text lines and an HTTP surface
//! that turns CRUD outcomes into status codes.
//!
//! The SQLite calls themselves sit behind a handful of trusted wrappers in
//! [`db`]; everything above them — row decoding, the repository operations,
//! argument parsing, response rendering — is verified against a sequence
//! model of the table.

pub mod cli;
pub mod commands;
pub mod db;
pub mod error;
pub mod http;
pub mod model;
pub mod text;
pub mod todos;
