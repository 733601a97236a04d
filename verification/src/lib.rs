//! Decision logic of an Envoy external-processing (ext_proc) server.
//!
//! The library holds the message shapes the processor reads and writes,
//! the answer given to each processing request, and the state machine that
//! drives one bidirectional processing stream. Transport, async plumbing and
//! logging live in the application around it.

pub mod headers;
pub mod messages;
pub mod processing_request;
pub mod processing_response;
pub mod processor;
pub mod stream;
pub mod server_config;
