//! Error types for the client.

use vstd::prelude::*;

verus! {

/// The ways a frame can be malformed. Each source of malformation is a
/// distinct variant, so callers can tell them apart.
#[derive(Clone, Copy, Debug, PartialEq, Eq, Structural)]
pub enum FormatError {
    /// A base64 text that the standard alphabet does not decode.
    BadBase64,
    /// A codec header whose decoded length is not exactly four bytes.
    BadHeaderLength,
    /// A text frame that matches no known message shape.
    BadJsonShape,
    /// A binary frame shorter than its fixed nine-byte header.
    BadBinaryHeader,
}

/// Error kinds that operations of this client can produce.
#[derive(Clone, Debug, PartialEq, Eq)]
pub enum ZelloError {
    /// Transport-level failure or unexpected close.
    ConnectionError(String),
    /// The server rejected the logon; carries the server's message.
    AuthenticationError(String),
    /// A structurally valid frame that is semantically unexpected.
    ProtocolError(String),
    /// A malformed frame: bad base64, bad JSON shape, or a bad binary header.
    FormatError(FormatError),
    /// An operation on an unknown stream identifier, or a playback failure.
    AudioError(String),
    /// An operation attempted before authentication.
    NotConnected,
    /// An invalid credential bundle.
    ConfigError(String),
    /// A bounded wait that expired.
    Timeout,
}

/// Result type used by the client's operations.
pub type ZelloResult<T> = Result<T, ZelloError>;

} // verus!
