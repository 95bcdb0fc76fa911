//! Typed client library for a remote trading-simulation API.
//!
//! The library separates wire-level HTTP concerns from domain operations:
//! an injectable transport ([`client::HttpClient`]) performs authenticated
//! requests, a codec maps the JSON wire format onto typed domain records
//! ([`data`]), and a single error type ([`error::Error`]) unifies transport,
//! decode and encode failures.

pub mod client;
pub mod codec;
pub mod data;
pub mod encode;
pub mod error;
pub mod json;
pub mod laws;
pub mod text;
pub mod time;
