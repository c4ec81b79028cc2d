//! Verified core of a command-line client for OpenAI-compatible image
//! generation and image edit endpoints.
//!
//! The library holds the decisions of the client: which provider, base URL
//! and credential source a configuration selects, which requests are
//! accepted, how image bytes are recognised, how response items are decoded,
//! named and committed as one batch, and how error text is bounded.  The
//! program around it performs the file, network and clock work and hands the
//! results back as plain values.
use vstd::prelude::*;

pub mod batch;
pub mod clock;
pub mod connection;
pub mod error;
pub mod format;
pub mod laws;
pub mod request;
pub mod response;
pub mod text;
