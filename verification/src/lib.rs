//! Client core for a push-to-talk messaging service's real-time protocol:
//! wire codec for the control and audio framing, request sequencing, the
//! session state machine that drives authentication and stream bookkeeping,
//! and the inbound audio decode pipeline.

use vstd::prelude::*;

pub mod audio;
pub mod client;
pub mod error;
pub mod handlers;
pub mod message;
pub mod bridge;
pub mod protocol;
pub mod strings;
pub mod wire;

verus! {

/// Library version.
pub const VERSION: &'static str = "0.1.0";

/// Source revision the library was built from.
pub const GIT_VERSION: &'static str = "0.1.0";

/// Number of channels carried by the service's audio streams (mono).
pub const OPUS_CHANNEL_COUNT: usize = 1;

/// Capacity, in decoded buffers, of the bounded queue between the decode
/// path and the playback consumer.
pub const PCM_CHANNEL_CAPACITY: usize = 20;

/// Fixed per-call capacity, in samples, of the decoder's output buffer.
pub const PCM_BUFFER_SIZE: usize = 1920;

/// Channel count handed to the playback device.
pub const CPAL_CHANNELS: u16 = 1;

/// Default service endpoint.
pub const ZELLO_DEFAULT_URL: &'static str = "wss://zello.io/ws";

} // verus!
