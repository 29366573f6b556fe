//! Verified core of a desktop client for a hosted course/lesson backend.
//!
//! Every operation against the remote store is one HTTP round trip. The
//! round trip itself is plumbing left to the caller; everything around it is not:
//! this crate builds the request (URL, query string, headers, typed body),
//! interprets the response (status classification, error-envelope
//! extraction, row unwrapping, result reshaping) and proves that both
//! sides match their stated contracts.

pub mod auth;
pub mod client;
pub mod codecheck;
pub mod commands;
pub mod encode;
pub mod profile;
pub mod progress;
pub mod strutil;
pub mod types;
