//! Verified core of a small static-content server.
//!
//! The library holds the registry of content stores (local directories and
//! object-store buckets), each mounted at a distinct URL path prefix, and the
//! per-request resolution logic that classifies a request into a file to
//! serve, a directory listing, an index redirect, a missing target, or an
//! internal failure. Process bootstrap, the HTTP server, the backends' I/O
//! and the listing renderer live outside the library and feed it plain
//! values.

pub mod address;
pub mod conf;
pub mod resolve;
