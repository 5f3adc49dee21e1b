use vstd::prelude::*;

verus! {

/// The error taxonomy of the server core.
///
/// `Traversal`, `ProtocolParseFailure` and `NotFound` are recovered at the
/// connection level and mapped to the client-error status line; a handshake
/// failure closes the connection silently, since no response channel exists
/// before the handshake is done.
#[derive(Clone, Copy, Debug, PartialEq, Eq, Structural)]
pub enum ServerError {
    /// The request path holds a parent-directory component after decoding.
    Traversal,
    /// The requested file is missing or unreadable.
    NotFound,
    /// Certificate or key material is missing or unparsable.
    TlsLoad,
    /// The TLS handshake with the client failed.
    HandshakeFailure,
    /// The request line is not a well-formed URL.
    ProtocolParseFailure,
}

} // verus!
