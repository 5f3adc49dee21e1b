//! A verified core for a minimalist TLS-encrypted hypertext server.
//!
//! Each connection carries one request line (a URL) and receives one
//! response — a status line followed by a body — after which the
//! connection closes.  This library holds the parts with real invariants:
//! path sanitization, the content cache, markup conversion, the content
//! pipeline, TLS material loading and the per-connection decisions.  I/O
//! (sockets, file reads, the handshake itself) stays with the caller,
//! which hands the core plain values and carries out its decisions.
pub mod cache;
pub mod config;
pub mod errors;
pub mod markup;
pub mod pages;
pub mod protocol;
pub mod sanitize;
pub mod tls;
