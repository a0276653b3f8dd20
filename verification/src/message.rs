//! Typed messages of the protocol, and the binary codec header.

use vstd::prelude::*;

use crate::bridge::{b64_decode, b64_decode_of, b64_encode, b64_encode_of};
use crate::error::{FormatError, ZelloError};

verus! {

/// Requests that can be sent to the service. Each carries the sequence
/// number assigned at send time, which identifies it for the round trip.
#[derive(Debug, Clone)]
pub enum Message {
    /// Logon request.
    Logon {
        seq: u32,
        username: Option<String>,
        password: Option<String>,
        auth_token: Option<String>,
        channels: Option<Vec<String>>,
    },
    /// Send a text message.
    SendTextMessage { seq: u32, channel: String, for_user: Option<String>, text: String },
    /// Start an outgoing audio stream.
    StartStream {
        seq: u32,
        channel: String,
        for_user: Option<String>,
        codec: String,
        codec_header: Option<String>,
        packet_duration: u32,
    },
    /// Stop an outgoing audio stream.
    StopStream { seq: u32, stream_id: u32 },
}

impl Message {
    /// The sequence number the request was built with.
    pub open spec fn spec_seq(&self) -> u32 {
        match *self {
            Message::Logon { seq, .. } => seq,
            Message::SendTextMessage { seq, .. } => seq,
            Message::StartStream { seq, .. } => seq,
            Message::StopStream { seq, .. } => seq,
        }
    }

    /// Create a logon message with username, password and token.
    pub fn logon_password(
        seq: u32,
        username: String,
        password: String,
        auth_token: String,
        channel: String,
    ) -> (r: Self)
        ensures
            ({
                &&& r matches Message::Logon {
                    seq: s,
                    username: u,
                    password: p,
                    auth_token: a,
                    channels: c,
                }
                &&& s == seq
                &&& u == Some(username)
                &&& p == Some(password)
                &&& a == Some(auth_token)
                &&& c matches Some(v) && v@ =~= seq![channel]
            }),
    {
        let mut channels: Vec<String> = Vec::new();
        channels.push(channel);
        Message::Logon {
            seq,
            username: Some(username),
            password: Some(password),
            auth_token: Some(auth_token),
            channels: Some(channels),
        }
    }

    /// Create a logon message with token only.
    pub fn logon_token(seq: u32, auth_token: String, channel: String) -> (r: Self)
        ensures
            ({
                &&& r matches Message::Logon {
                    seq: s,
                    username: u,
                    password: p,
                    auth_token: a,
                    channels: c,
                }
                &&& s == seq
                &&& u is None
                &&& p is None
                &&& a == Some(auth_token)
                &&& c matches Some(v) && v@ =~= seq![channel]
            }),
    {
        let mut channels: Vec<String> = Vec::new();
        channels.push(channel);
        Message::Logon {
            seq,
            username: None,
            password: None,
            auth_token: Some(auth_token),
            channels: Some(channels),
        }
    }

    /// Create a text message for the whole channel.
    pub fn send_text(seq: u32, channel: String, text: String) -> (r: Self)
        ensures
            r == (Message::SendTextMessage { seq, channel, for_user: None, text }),
    {
        Message::SendTextMessage { seq, channel, for_user: None, text }
    }

    /// Create a text message addressed to a specific callsign.
    pub fn send_text_for_callsign(
        seq: u32,
        channel: String,
        text: String,
        for_user: String,
    ) -> (r: Self)
        ensures
            r == (Message::SendTextMessage { seq, channel, for_user: Some(for_user), text }),
    {
        Message::SendTextMessage { seq, channel, for_user: Some(for_user), text }
    }

    /// Create a start-stream message.
    pub fn start_stream(seq: u32, channel: String, codec: String, packet_duration: u32) -> (r: Self)
        ensures
            r == (Message::StartStream {
                seq,
                channel,
                for_user: None,
                codec,
                codec_header: None,
                packet_duration,
            }),
    {
        Message::StartStream {
            seq,
            channel,
            for_user: None,
            codec,
            codec_header: None,
            packet_duration,
        }
    }

    /// Create a stop-stream message.
    pub fn stop_stream(seq: u32, stream_id: u32) -> (r: Self)
        ensures
            r == (Message::StopStream { seq, stream_id }),
    {
        Message::StopStream { seq, stream_id }
    }

    /// Get the sequence number.
    pub fn seq(&self) -> (r: Option<u32>)
        ensures
            r == Some(self.spec_seq()),
    {
        match self {
            Message::Logon { seq, .. } => Some(*seq),
            Message::SendTextMessage { seq, .. } => Some(*seq),
            Message::StartStream { seq, .. } => Some(*seq),
            Message::StopStream { seq, .. } => Some(*seq),
        }
    }

    /// The same request restamped with another sequence number.
    pub fn with_seq(self, seq: u32) -> (r: Self)
        ensures
            r.spec_seq() == seq,
            match self {
                Message::Logon { username, password, auth_token, channels, .. } => r == (
                Message::Logon { seq, username, password, auth_token, channels }),
                Message::SendTextMessage { channel, for_user, text, .. } => r == (
                Message::SendTextMessage { seq, channel, for_user, text }),
                Message::StartStream {
                    channel,
                    for_user,
                    codec,
                    codec_header,
                    packet_duration,
                    ..
                } => r == (Message::StartStream {
                    seq,
                    channel,
                    for_user,
                    codec,
                    codec_header,
                    packet_duration,
                }),
                Message::StopStream { stream_id, .. } => r == (Message::StopStream {
                    seq,
                    stream_id,
                }),
            },
    {
        match self {
            Message::Logon { username, password, auth_token, channels, .. } => Message::Logon {
                seq,
                username,
                password,
                auth_token,
                channels,
            },
            Message::SendTextMessage { channel, for_user, text, .. } => Message::SendTextMessage {
                seq,
                channel,
                for_user,
                text,
            },
            Message::StartStream {
                channel,
                for_user,
                codec,
                codec_header,
                packet_duration,
                ..
            } => Message::StartStream {
                seq,
                channel,
                for_user,
                codec,
                codec_header,
                packet_duration,
            },
            Message::StopStream { stream_id, .. } => Message::StopStream { seq, stream_id },
        }
    }
}

/// Law: every outgoing request variant reads back exactly the sequence
/// number it was built with.
pub proof fn lemma_request_seq(m: Message)
    ensures
        m matches Message::Logon { seq, .. } ==> m.spec_seq() == seq,
        m matches Message::SendTextMessage { seq, .. } ==> m.spec_seq() == seq,
        m matches Message::StartStream { seq, .. } ==> m.spec_seq() == seq,
        m matches Message::StopStream { seq, .. } ==> m.spec_seq() == seq,
{
}

/// Responses from the service, correlated to a request by sequence number.
#[derive(Debug, Clone)]
pub enum Response {
    /// Logon response; carries the server-issued refresh token.
    Logon { seq: u32, success: bool, refresh_token: String, error: Option<String> },
    /// Response to any other request.
    Generic { seq: u32, success: bool, error: Option<String> },
}

impl Response {
    /// The sequence number of the request this response answers.
    pub open spec fn spec_seq(&self) -> u32 {
        match *self {
            Response::Logon { seq, .. } => seq,
            Response::Generic { seq, .. } => seq,
        }
    }

    /// The success indicator.
    pub open spec fn spec_success(&self) -> bool {
        match *self {
            Response::Logon { success, .. } => success,
            Response::Generic { success, .. } => success,
        }
    }

    /// Get the sequence number.
    pub fn seq(&self) -> (r: Option<u32>)
        ensures
            r == Some(self.spec_seq()),
    {
        match self {
            Response::Logon { seq, .. } => Some(*seq),
            Response::Generic { seq, .. } => Some(*seq),
        }
    }

    /// Check whether this is a success response.
    pub fn is_success(&self) -> (r: bool)
        ensures
            r == self.spec_success(),
    {
        match self {
            Response::Logon { success, .. } => *success,
            Response::Generic { success, .. } => *success,
        }
    }

    /// Get the error message, if the response carries one.
    pub fn error(&self) -> (r: Option<&str>)
        ensures
            match *self {
                Response::Logon { ref error, .. } => match (r, error) {
                    (Some(s), Some(e)) => s@ == e@,
                    (None, None) => true,
                    _ => false,
                },
                Response::Generic { ref error, .. } => match (r, error) {
                    (Some(s), Some(e)) => s@ == e@,
                    (None, None) => true,
                    _ => false,
                },
            },
    {
        match self {
            Response::Logon { error, .. } => match error {
                Some(e) => Some(e.as_str()),
                None => None,
            },
            Response::Generic { error, .. } => match error {
                Some(e) => Some(e.as_str()),
                None => None,
            },
        }
    }
}

/// Error notices from the service. They carry no correlation.
#[derive(Debug, Clone)]
pub enum Error {
    /// An error message.
    Error { error: String },
}

impl Error {
    /// Get the error message.
    pub fn error(&self) -> (r: &str)
        ensures
            match *self {
                Error::Error { ref error } => r@ == error@,
            },
    {
        match self {
            Error::Error { error } => error.as_str(),
        }
    }
}

/// Asynchronous, server-initiated events.
#[derive(Debug, Clone)]
pub enum Event {
    /// A text message was received.
    TextMessage {
        message_id: u64,
        channel: String,
        from: String,
        for_user: Option<String>,
        text: String,
        author: Option<String>,
    },
    /// An inbound audio stream started.
    AudioStart {
        stream_id: u32,
        channel: String,
        from: String,
        for_user: Option<String>,
        codec: String,
        codec_header: Option<String>,
        packet_duration: u32,
    },
    /// An audio data packet arrived.
    AudioData { stream_id: u32, packet_id: u32, data: Vec<u8> },
    /// An inbound audio stream stopped.
    AudioStop { stream_id: u32 },
    /// A channel status update.
    ChannelStatus {
        channel: String,
        status: String,
        users_online: u32,
        images: Option<Vec<ChannelImage>>,
    },
    /// A participant went online or offline.
    OnlineStatus { channel: String, from: String, online: bool },
}

/// All inbound messages: three disjoint families.
#[derive(Debug, Clone)]
pub enum IncomingMessage {
    Response(Response),
    Error(Error),
    Event(Event),
}

/// Channel image information.
#[derive(Debug, Clone)]
pub struct ChannelImage {
    pub url: String,
    pub thumbnail_url: Option<String>,
}

/// The view of an optional string: the character sequence it holds.
pub open spec fn view_opt_str(o: Option<String>) -> Option<Seq<char>> {
    match o {
        Some(s) => Some(s@),
        None => None,
    }
}

/// Mathematical value of a [`ChannelImage`].
pub struct ChannelImageView {
    pub url: Seq<char>,
    pub thumbnail_url: Option<Seq<char>>,
}

impl View for ChannelImage {
    type V = ChannelImageView;

    open spec fn view(&self) -> ChannelImageView {
        ChannelImageView { url: self.url@, thumbnail_url: view_opt_str(self.thumbnail_url) }
    }
}

/// Mathematical value of a [`Response`].
pub enum ResponseView {
    Logon { seq: u32, success: bool, refresh_token: Seq<char>, error: Option<Seq<char>> },
    Generic { seq: u32, success: bool, error: Option<Seq<char>> },
}

impl View for Response {
    type V = ResponseView;

    open spec fn view(&self) -> ResponseView {
        match *self {
            Response::Logon { seq, success, ref refresh_token, ref error } => ResponseView::Logon {
                seq,
                success,
                refresh_token: refresh_token@,
                error: view_opt_str(*error),
            },
            Response::Generic { seq, success, ref error } => ResponseView::Generic {
                seq,
                success,
                error: view_opt_str(*error),
            },
        }
    }
}

/// Mathematical value of an [`Error`].
pub enum ErrorView {
    Error { error: Seq<char> },
}

impl View for Error {
    type V = ErrorView;

    open spec fn view(&self) -> ErrorView {
        match *self {
            Error::Error { ref error } => ErrorView::Error { error: error@ },
        }
    }
}

/// Mathematical value of an [`Event`].
pub enum EventView {
    TextMessage {
        message_id: u64,
        channel: Seq<char>,
        from: Seq<char>,
        for_user: Option<Seq<char>>,
        text: Seq<char>,
        author: Option<Seq<char>>,
    },
    AudioStart {
        stream_id: u32,
        channel: Seq<char>,
        from: Seq<char>,
        for_user: Option<Seq<char>>,
        codec: Seq<char>,
        codec_header: Option<Seq<char>>,
        packet_duration: u32,
    },
    AudioData { stream_id: u32, packet_id: u32, data: Seq<u8> },
    AudioStop { stream_id: u32 },
    ChannelStatus {
        channel: Seq<char>,
        status: Seq<char>,
        users_online: u32,
        images: Option<Seq<ChannelImageView>>,
    },
    OnlineStatus { channel: Seq<char>, from: Seq<char>, online: bool },
}

impl View for Event {
    type V = EventView;

    open spec fn view(&self) -> EventView {
        match *self {
            Event::TextMessage {
                message_id,
                ref channel,
                ref from,
                ref for_user,
                ref text,
                ref author,
            } => EventView::TextMessage {
                message_id,
                channel: channel@,
                from: from@,
                for_user: view_opt_str(*for_user),
                text: text@,
                author: view_opt_str(*author),
            },
            Event::AudioStart {
                stream_id,
                ref channel,
                ref from,
                ref for_user,
                ref codec,
                ref codec_header,
                packet_duration,
            } => EventView::AudioStart {
                stream_id,
                channel: channel@,
                from: from@,
                for_user: view_opt_str(*for_user),
                codec: codec@,
                codec_header: view_opt_str(*codec_header),
                packet_duration,
            },
            Event::AudioData { stream_id, packet_id, ref data } => EventView::AudioData {
                stream_id,
                packet_id,
                data: data@,
            },
            Event::AudioStop { stream_id } => EventView::AudioStop { stream_id },
            Event::ChannelStatus { ref channel, ref status, users_online, ref images } => (
            EventView::ChannelStatus {
                channel: channel@,
                status: status@,
                users_online,
                images: match *images {
                    Some(ref v) => Some(Seq::new(v@.len(), |i: int| v@[i]@)),
                    None => None,
                },
            }),
            Event::OnlineStatus { ref channel, ref from, online } => EventView::OnlineStatus {
                channel: channel@,
                from: from@,
                online,
            },
        }
    }
}

/// Mathematical value of an [`IncomingMessage`].
pub enum IncomingMessageView {
    Response(ResponseView),
    Error(ErrorView),
    Event(EventView),
}

impl View for IncomingMessage {
    type V = IncomingMessageView;

    open spec fn view(&self) -> IncomingMessageView {
        match *self {
            IncomingMessage::Response(ref r) => IncomingMessageView::Response(r@),
            IncomingMessage::Error(ref e) => IncomingMessageView::Error(e@),
            IncomingMessage::Event(ref e) => IncomingMessageView::Event(e@),
        }
    }
}

/// Codec header: exactly four bytes — sample rate (16-bit little-endian),
/// frames per packet, and frame duration in milliseconds.
#[derive(Debug, Clone, Copy, PartialEq, Eq, Structural)]
pub struct CodecHeader {
    pub sample_rate_hz: u16,
    pub frames_per_packet: u8,
    pub frame_size_ms: u8,
}

/// The header a byte sequence of length four decodes to.
pub open spec fn spec_header_of_bytes(b: Seq<u8>) -> CodecHeader
    recommends
        b.len() == 4,
{
    CodecHeader {
        sample_rate_hz: (b[0] + b[1] * 256) as u16,
        frames_per_packet: b[2],
        frame_size_ms: b[3],
    }
}

/// The four-byte little-endian encoding of a header.
pub open spec fn spec_header_bytes(h: CodecHeader) -> Seq<u8> {
    seq![(h.sample_rate_hz % 256) as u8, (h.sample_rate_hz / 256) as u8, h.frames_per_packet, h.frame_size_ms]
}

impl CodecHeader {
    /// Parse a codec header from its fixed four-byte layout. Any input
    /// whose length is not exactly four bytes is rejected.
    pub fn from_bytes(bytes: &[u8]) -> (r: Result<Self, ZelloError>)
        ensures
            bytes@.len() == 4 ==> r == Ok::<CodecHeader, ZelloError>(spec_header_of_bytes(bytes@)),
            bytes@.len() != 4 ==> r == Err::<CodecHeader, ZelloError>(
                ZelloError::FormatError(FormatError::BadHeaderLength),
            ),
    {
        if bytes.len() != 4 {
            return Err(ZelloError::FormatError(FormatError::BadHeaderLength));
        }
        let sample_rate_hz: u16 = bytes[0] as u16 + (bytes[1] as u16) * 256;
        Ok(CodecHeader { sample_rate_hz, frames_per_packet: bytes[2], frame_size_ms: bytes[3] })
    }

    /// Decode a base64-encoded codec header. A text the standard
    /// alphabet does not decode, and a decoding whose length is not
    /// exactly four bytes, are rejected with distinct errors.
    pub fn from_base64(encoded: &str) -> (r: Result<Self, ZelloError>)
        ensures
            match b64_decode_of(encoded@) {
                Some(b) => {
                    if b.len() == 4 {
                        r == Ok::<CodecHeader, ZelloError>(spec_header_of_bytes(b))
                    } else {
                        r == Err::<CodecHeader, ZelloError>(
                            ZelloError::FormatError(FormatError::BadHeaderLength),
                        )
                    }
                },
                None => r == Err::<CodecHeader, ZelloError>(
                    ZelloError::FormatError(FormatError::BadBase64),
                ),
            },
    {
        match b64_decode(encoded) {
            Some(bytes) => Self::from_bytes(bytes.as_slice()),
            None => Err(ZelloError::FormatError(FormatError::BadBase64)),
        }
    }

    /// Encode to base64 text over the four-byte layout.
    pub fn to_base64(&self) -> (r: String)
        ensures
            r@ == b64_encode_of(spec_header_bytes(*self)),
    {
        let bytes = self.to_bytes();
        b64_encode(bytes.as_slice())
    }

    /// Encode to the fixed four-byte layout.
    pub fn to_bytes(&self) -> (r: Vec<u8>)
        ensures
            r@ == spec_header_bytes(*self),
    {
        let mut out: Vec<u8> = Vec::new();
        out.push((self.sample_rate_hz % 256) as u8);
        out.push((self.sample_rate_hz / 256) as u8);
        out.push(self.frames_per_packet);
        out.push(self.frame_size_ms);
        assert(out@ =~= spec_header_bytes(*self));
        out
    }
}

impl Default for CodecHeader {
    /// The header assumed when a stream announces none: 16 kHz, one frame
    /// per packet, 60 ms frames.
    fn default() -> (r: Self)
        ensures
            r == (CodecHeader { sample_rate_hz: 16000, frames_per_packet: 1, frame_size_ms: 60 }),
    {
        CodecHeader { sample_rate_hz: 16000, frames_per_packet: 1, frame_size_ms: 60 }
    }
}

/// Law: the codec header round-trips through its four-byte encoding.
pub proof fn lemma_header_round_trip(h: CodecHeader)
    ensures
        spec_header_bytes(h).len() == 4,
        spec_header_of_bytes(spec_header_bytes(h)) == h,
{
    let b = spec_header_bytes(h);
    assert(h.sample_rate_hz % 256 + (h.sample_rate_hz / 256) * 256 == h.sample_rate_hz) by {
        vstd::arithmetic::div_mod::lemma_fundamental_div_mod(h.sample_rate_hz as int, 256);
    };
    assert(spec_header_of_bytes(b) == h);
}

/// Law: a byte sequence of length four decodes, and re-encodes to itself.
pub proof fn lemma_header_bytes_round_trip(b: Seq<u8>)
    requires
        b.len() == 4,
    ensures
        spec_header_bytes(spec_header_of_bytes(b)) =~= b,
{
    let r: u16 = (b[0] + b[1] * 256) as u16;
    assert(r % 256 == b[0] && r / 256 == b[1]) by {
        vstd::arithmetic::div_mod::lemma_fundamental_div_mod(r as int, 256);
    };
}

} // verus!
