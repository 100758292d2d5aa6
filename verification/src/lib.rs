//! Core logic of a minimal HTTP/1.1 server: request framing, request
//! parsing, routing decisions, and response serialization, all stated and
//! proved over plain bytes.
//!
//! The surrounding process owns the sockets and the storage root; this
//! crate owns every decision in between: when a byte stream holds a
//! complete request, what structured request it denotes, what response a
//! request deserves, and what bytes that response is written as.

pub mod handler;
pub mod laws;
pub mod message;
pub mod parser;
pub mod reader;
pub mod scan;
pub mod writer;
