//! Verified core of a client for the SAP Concur REST APIs (v4 / v4.1).
//!
//! This crate holds the parts of the client that compute: endpoint paths and
//! query strings, OAuth2 form parameters, token expiry and caching decisions,
//! the retry policy for transient HTTP failures, request headers, and the
//! mapping of error responses. Sending and receiving bytes is left to the
//! caller, which hands the results back as plain values.

pub mod text;
pub mod time;
pub mod error;
pub mod auth;
pub mod client;
pub mod api;
pub mod models;
