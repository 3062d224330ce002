//! A verified model of a command-line client for a continuous-integration
//! server's REST API: build-trigger parameters with `@file` expansion, an
//! authenticated session with optional anti-CSRF crumb, build metadata with
//! artifact resolution, and a job facade that describes every request the
//! client performs.
//!
//! The library computes and proves the client's decisions — URLs, request
//! shapes, serialized parameter documents, artifact matches, destination file
//! names — while the transport and the file system stay with the caller, who
//! performs each described [`client::HttpRequest`] and hands response bodies
//! back for decoding.

pub mod builds;
pub mod client;
pub mod error;
pub mod job;
pub mod json;
pub mod parameters;
pub mod text;
