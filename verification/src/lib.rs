//! A verified core for a line-delimited JSON-RPC tool gateway.
//!
//! The crate models JSON values, parses and serializes the wire format,
//! routes protocol requests through a session state machine, resolves
//! per-call field selections, and shrinks backend responses by removing
//! configured noise fields.  Network and stream I/O live outside the
//! library; the functions here compute every decision from plain values.

pub mod args;
pub mod config;
pub mod confluence;
pub mod http;
pub mod jira;
pub mod json;
pub mod logging;
pub mod optimizer;
pub mod parse;
pub mod protocol;
pub mod registry;
pub mod scope;
pub mod server;
pub mod text;
pub mod unparse;
