//! A gzip codec adapter: compression and decompression of in-memory byte
//! buffers with a structured error taxonomy, and the response-shaping rules
//! that expose the codec behind HTTP-style endpoints.

pub mod codec;
pub mod http;
