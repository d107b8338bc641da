//! Session layer of a client for the SSH agent protocol, written without I/O.
//!
//! An agent holds private keys and answers requests over a local transport.
//! This crate holds the decisions a client takes when it talks to one: how a
//! connection is established over each kind of transport, and how one request
//! is paired with exactly one response and that response is checked against
//! what the operation allows. Reading, writing and waiting are left to the
//! caller, who reports how each of them ended.

pub mod client;
pub mod connector;
pub mod error;
pub mod proto;
pub mod reply;

pub use client::Client;
pub use connector::connect;
