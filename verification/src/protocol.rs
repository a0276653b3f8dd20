//! Request sequencing and inbound frame handling.
//!
//! The connection itself is owned by the caller; this module holds the
//! sequence counter and decides, for each raw frame, what the transport
//! hands to the session: ping and pong frames are consumed silently, a
//! close frame is a connection error rather than a clean end of input,
//! and any other unexpected frame kind is a protocol error.

use vstd::prelude::*;

use crate::error::{FormatError, ZelloError};
use crate::message::IncomingMessage;
use crate::wire::{decode_binary, decode_text, spec_decode_binary, spec_decode_text};

verus! {

/// The sequencing state of the connection.
#[derive(Debug)]
pub struct Protocol {
    /// The next sequence number to hand out.
    pub sequence: u32,
}

impl Protocol {
    /// The counter value after one number is handed out: advanced by one,
    /// wrapping at the 32-bit boundary rather than failing.
    pub open spec fn spec_next_sequence(s: u32) -> u32 {
        if s == 0xFFFF_FFFFu32 {
            0
        } else {
            (s + 1) as u32
        }
    }

    /// A fresh counter. Sequence numbers start at 1.
    pub fn new() -> (r: Self)
        ensures
            r.sequence == 1,
    {
        Protocol { sequence: 1 }
    }

    /// Return the current counter value and advance it by one, wrapping
    /// at the 32-bit boundary.
    pub fn next_seq(&mut self) -> (r: u32)
        ensures
            r == old(self).sequence,
            final(self).sequence == Protocol::spec_next_sequence(old(self).sequence),
    {
        let s = self.sequence;
        if self.sequence == 0xFFFF_FFFFu32 {
            self.sequence = 0;
        } else {
            self.sequence = self.sequence + 1;
        }
        s
    }
}

/// One raw frame as the connection delivers it.
#[derive(Debug)]
pub enum Frame {
    /// A text frame holding a JSON control message.
    Text(String),
    /// A binary frame holding an audio packet.
    Binary(Vec<u8>),
    /// A ping control frame.
    Ping(Vec<u8>),
    /// A pong control frame.
    Pong(Vec<u8>),
    /// A close frame.
    Close,
    /// Any other frame kind.
    Other,
}

/// What one raw frame amounts to: a typed message, or nothing.
#[derive(Debug)]
pub enum FrameStep {
    /// A decoded inbound message to surface to the session.
    Message(IncomingMessage),
    /// A frame consumed silently; the receive loop goes on.
    Ignore,
}

/// Decide what one raw frame surfaces: text and binary frames decode,
/// ping and pong are consumed, a close frame is a connection error, and
/// an unexpected frame kind is a protocol error.
pub fn process_frame(f: Frame) -> (r: Result<FrameStep, ZelloError>)
    ensures
        ({
            match f {
                Frame::Text(t) => match r {
                    Ok(FrameStep::Message(m)) => spec_decode_text(t@) == Some(m@),
                    Ok(FrameStep::Ignore) => false,
                    Err(e) => spec_decode_text(t@) is None && e == ZelloError::FormatError(
                        FormatError::BadJsonShape,
                    ),
                },
                Frame::Binary(d) => match r {
                    Ok(FrameStep::Message(m)) => spec_decode_binary(d@) == Some(m@),
                    Ok(FrameStep::Ignore) => false,
                    Err(e) => spec_decode_binary(d@) is None && e == ZelloError::FormatError(
                        FormatError::BadBinaryHeader,
                    ),
                },
                Frame::Ping(_) => r matches Ok(FrameStep::Ignore),
                Frame::Pong(_) => r matches Ok(FrameStep::Ignore),
                Frame::Close => r matches Err(ZelloError::ConnectionError(s)) && s@
                    == "Connection closed"@,
                Frame::Other => r matches Err(ZelloError::ProtocolError(s)) && s@
                    == "Unexpected frame message"@,
            }
        }),
{
    match f {
        Frame::Text(t) => match decode_text(t.as_str()) {
            Ok(m) => Ok(FrameStep::Message(m)),
            Err(e) => Err(e),
        },
        Frame::Binary(d) => match decode_binary(d.as_slice()) {
            Ok(m) => Ok(FrameStep::Message(m)),
            Err(e) => Err(e),
        },
        Frame::Ping(_) => Ok(FrameStep::Ignore),
        Frame::Pong(_) => Ok(FrameStep::Ignore),
        Frame::Close => Err(ZelloError::ConnectionError("Connection closed".to_owned())),
        Frame::Other => Err(ZelloError::ProtocolError("Unexpected frame message".to_owned())),
    }
}

} // verus!
