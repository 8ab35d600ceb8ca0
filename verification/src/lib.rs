//! Client library for a model-serving HTTP API whose streaming endpoints
//! answer with newline-delimited JSON (NDJSON).
//!
//! The core of the library is the stream decoder: it turns an arbitrarily
//! chunked byte stream into an ordered sequence of framed lines and
//! per-line decode outcomes.  Transport (HTTP) is left to the caller, who
//! drives the decoder with chunk / end / failure events.

pub mod assembler;
pub mod endpoints;
pub mod error;
pub mod framing;
pub mod models;
pub mod record;
pub mod stream;
