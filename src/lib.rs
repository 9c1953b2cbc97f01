//! A bridge between a foreground application and a backend child process that
//! speaks newline-delimited JSON-RPC over its standard streams: framing of the
//! output stream, correlation of replies with waiting callers, routing of
//! unsolicited events, and the per-call decisions of the request gateway.

pub mod framing;
pub mod envelope;
pub mod pending;
pub mod backend;
