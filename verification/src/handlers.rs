//! Handlers for inbound messages: display lines for events that only get
//! reported, bookkeeping for stream starts and stops, and the dispatcher
//! that decides what one inbound message amounts to.

use vstd::prelude::*;

use crate::client::{StreamInfo, ZelloClient};
use crate::error::ZelloError;
use crate::message::{CodecHeader, Error, Event, IncomingMessage, Response};
use crate::bridge::b64_decode_of;
use crate::strings::{chars_to_string, push_str_chars, push_u32, spec_u32_digits};

verus! {

/// The display line for a received text message.
pub open spec fn spec_text_message_line(
    channel: Seq<char>,
    from: Seq<char>,
    author: Option<Seq<char>>,
    text: Seq<char>,
) -> Seq<char> {
    "["@ + channel + "] "@ + (match author {
        Some(a) => a,
        None => from,
    }) + ": "@ + text
}

/// Format a received text message: the author stands in for the sender
/// where one is given.
pub fn handle_text_message(from: &str, text: &str, author: Option<&str>, channel: &str) -> (r:
    String)
    ensures
        r@ == spec_text_message_line(
            channel@,
            from@,
            match author {
                Some(a) => Some(a@),
                None => None,
            },
            text@,
        ),
{
    let mut out: Vec<char> = Vec::new();
    push_str_chars(&mut out, "[");
    push_str_chars(&mut out, channel);
    push_str_chars(&mut out, "] ");
    match author {
        Some(a) => push_str_chars(&mut out, a),
        None => push_str_chars(&mut out, from),
    }
    push_str_chars(&mut out, ": ");
    push_str_chars(&mut out, text);
    chars_to_string(&out)
}

/// The display line for a presence change.
pub open spec fn spec_online_status_line(
    channel: Seq<char>,
    from: Seq<char>,
    online: bool,
) -> Seq<char> {
    "["@ + channel + "] "@ + from + " is now "@ + (if online {
        "online"@
    } else {
        "offline"@
    })
}

/// Format a presence change.
pub fn handle_online_status(channel: &str, from: &str, online: bool) -> (r: String)
    ensures
        r@ == spec_online_status_line(channel@, from@, online),
{
    let mut out: Vec<char> = Vec::new();
    push_str_chars(&mut out, "[");
    push_str_chars(&mut out, channel);
    push_str_chars(&mut out, "] ");
    push_str_chars(&mut out, from);
    push_str_chars(&mut out, " is now ");
    if online {
        push_str_chars(&mut out, "online");
    } else {
        push_str_chars(&mut out, "offline");
    }
    chars_to_string(&out)
}

/// The display line for a channel status update.
pub open spec fn spec_channel_status_line(
    channel: Seq<char>,
    status: Seq<char>,
    users_online: u32,
) -> Seq<char> {
    "["@ + channel + "] Status: "@ + status + " ("@ + spec_u32_digits(users_online as int)
        + " users online)"@
}

/// Format a channel status update.
pub fn handle_channel_status(channel: &str, status: &str, users_online: u32) -> (r: String)
    ensures
        r@ == spec_channel_status_line(channel@, status@, users_online),
{
    let mut out: Vec<char> = Vec::new();
    push_str_chars(&mut out, "[");
    push_str_chars(&mut out, channel);
    push_str_chars(&mut out, "] Status: ");
    push_str_chars(&mut out, status);
    push_str_chars(&mut out, " (");
    push_u32(&mut out, users_online);
    push_str_chars(&mut out, " users online)");
    chars_to_string(&out)
}

/// The display line for a response.
pub open spec fn spec_response_line(
    seq: u32,
    success: bool,
    error: Option<Seq<char>>,
) -> Seq<char> {
    if success {
        "Response to #"@ + spec_u32_digits(seq as int) + ": Success"@
    } else {
        "Response to #"@ + spec_u32_digits(seq as int) + ": Failed - "@ + (match error {
            Some(e) => e,
            None => "Unknown error"@,
        })
    }
}

/// Format a response outcome.
pub fn handle_response(seq: u32, success: bool, error: Option<&str>) -> (r: String)
    ensures
        r@ == spec_response_line(
            seq,
            success,
            match error {
                Some(e) => Some(e@),
                None => None,
            },
        ),
{
    let mut out: Vec<char> = Vec::new();
    push_str_chars(&mut out, "Response to #");
    push_u32(&mut out, seq);
    if success {
        push_str_chars(&mut out, ": Success");
    } else {
        push_str_chars(&mut out, ": Failed - ");
        match error {
            Some(e) => push_str_chars(&mut out, e),
            None => push_str_chars(&mut out, "Unknown error"),
        }
    }
    chars_to_string(&out)
}

/// Whether an announced codec header is acceptable: absent, or present
/// and decoding to exactly four bytes.
pub open spec fn spec_header_ok(codec_header: Option<Seq<char>>) -> bool {
    match codec_header {
        Some(h) => b64_decode_of(h) matches Some(b) && b.len() == 4,
        None => true,
    }
}

/// Record the start of an inbound stream. The announced codec header is
/// parsed — a malformed one is surfaced as an error and nothing is
/// recorded — and an absent one falls back to the default. On success
/// the stream is recorded under the server-assigned identifier.
pub fn handle_audio_start(
    client: &mut ZelloClient,
    stream_id: u32,
    from: String,
    codec: String,
    codec_header: Option<&str>,
    channel: String,
    _packet_duration: Option<u32>,
) -> (r: Result<(), ZelloError>)
    ensures
        final(client).config == old(client).config,
        final(client).state == old(client).state,
        final(client).logon_seq == old(client).logon_seq,
        final(client).pending_stream == old(client).pending_stream,
        final(client).active_streams@ == old(client).active_streams@,
        final(client).refresh_token == old(client).refresh_token,
        final(client).protocol == old(client).protocol,
        spec_header_ok(
            match codec_header {
                Some(h) => Some(h@),
                None => None,
            },
        ) ==> ({
            &&& r is Ok
            &&& final(client).active_inbound_streams@
                == old(client).active_inbound_streams@.insert(
                stream_id,
                (StreamInfo { channel, codec, callsign: Some(from) }),
            )
        }),
        !spec_header_ok(
            match codec_header {
                Some(h) => Some(h@),
                None => None,
            },
        ) ==> ({
            &&& r matches Err(e)
            &&& e matches ZelloError::FormatError(_)
            &&& final(client).active_inbound_streams@ == old(client).active_inbound_streams@
        }),
{
    match codec_header {
        Some(h) => match CodecHeader::from_base64(h) {
            Ok(_) => {},
            Err(e) => {
                return Err(e);
            },
        },
        None => {},
    }
    client.add_inbound_stream(stream_id, channel, codec, Some(from))
}

/// Record the stop of an inbound stream: the entry leaves the inbound
/// map when it is present. The bookkeeping reports an unknown inbound
/// identifier as an error; this event handler tolerates it and goes on,
/// since the event path has nobody to answer.
pub fn handle_audio_stop(client: &mut ZelloClient, stream_id: u32) -> (r: Result<(), ZelloError>)
    ensures
        r is Ok,
        final(client).active_inbound_streams@ == old(client).active_inbound_streams@.remove(
            stream_id,
        ),
        final(client).config == old(client).config,
        final(client).state == old(client).state,
        final(client).logon_seq == old(client).logon_seq,
        final(client).pending_stream == old(client).pending_stream,
        final(client).active_streams@ == old(client).active_streams@,
        final(client).refresh_token == old(client).refresh_token,
        final(client).protocol == old(client).protocol,
{
    match client.remove_inbound_stream(stream_id) {
        Ok(_) => {},
        Err(_) => {
            proof {
                assert(old(client).active_inbound_streams@
                    =~= old(client).active_inbound_streams@.remove(stream_id));
            }
        },
    }
    Ok(())
}

/// What one inbound message amounts to for the caller.
#[derive(Debug)]
pub enum MessageAction {
    /// A line to report.
    Log(String),
    /// An audio payload to decode, forwarded whether or not the stream
    /// identifier is known: decoding is not gated on stream bookkeeping.
    Audio { stream_id: u32, packet_id: u32, data: Vec<u8> },
    /// Nothing left to do; any bookkeeping has been applied.
    Ignore,
}

/// Dispatch one inbound message: stream starts and stops update the
/// inbound map, audio data is handed out for decoding, and the rest
/// yield display lines.
pub fn handle_message(client: &mut ZelloClient, message: IncomingMessage) -> (r: MessageAction)
    ensures
        final(client).config == old(client).config,
        final(client).state == old(client).state,
        final(client).logon_seq == old(client).logon_seq,
        final(client).pending_stream == old(client).pending_stream,
        final(client).active_streams@ == old(client).active_streams@,
        final(client).refresh_token == old(client).refresh_token,
        final(client).protocol == old(client).protocol,
        ({
            match message {
                IncomingMessage::Event(Event::TextMessage {
                    ref channel,
                    ref from,
                    ref for_user,
                    ref text,
                    ref author,
                    ..
                }) => {
                    &&& r matches MessageAction::Log(line)
                    &&& line@ == spec_text_message_line(
                        channel@,
                        from@,
                        match *author {
                            Some(ref a) => Some(a@),
                            None => None,
                        },
                        text@,
                    )
                    &&& final(client).active_inbound_streams@
                        == old(client).active_inbound_streams@
                },
                IncomingMessage::Event(Event::AudioStart {
                    stream_id,
                    ref channel,
                    ref from,
                    ref codec,
                    ref codec_header,
                    ..
                }) => {
                    &&& r is Ignore
                    &&& spec_header_ok(
                        match *codec_header {
                            Some(ref h) => Some(h@),
                            None => None,
                        },
                    ) ==> final(client).active_inbound_streams@
                        == old(client).active_inbound_streams@.insert(
                        stream_id,
                        (StreamInfo {
                            channel: *channel,
                            codec: *codec,
                            callsign: Some(*from),
                        }),
                    )
                    &&& !spec_header_ok(
                        match *codec_header {
                            Some(ref h) => Some(h@),
                            None => None,
                        },
                    ) ==> final(client).active_inbound_streams@
                        == old(client).active_inbound_streams@
                },
                IncomingMessage::Event(Event::AudioStop { stream_id }) => {
                    &&& r is Ignore
                    &&& final(client).active_inbound_streams@
                        == old(client).active_inbound_streams@.remove(stream_id)
                },
                IncomingMessage::Event(Event::AudioData { stream_id, packet_id, ref data }) => {
                    &&& r matches MessageAction::Audio {
                        stream_id: rs,
                        packet_id: rp,
                        data: ref rd,
                    }
                    &&& rs == stream_id
                    &&& rp == packet_id
                    &&& rd@ == data@
                    &&& final(client).active_inbound_streams@
                        == old(client).active_inbound_streams@
                },
                IncomingMessage::Event(Event::OnlineStatus { ref channel, ref from, online }) => {
                    &&& r matches MessageAction::Log(line)
                    &&& line@ == spec_online_status_line(channel@, from@, online)
                    &&& final(client).active_inbound_streams@
                        == old(client).active_inbound_streams@
                },
                IncomingMessage::Event(Event::ChannelStatus {
                    ref channel,
                    ref status,
                    users_online,
                    ..
                }) => {
                    &&& r matches MessageAction::Log(line)
                    &&& line@ == spec_channel_status_line(channel@, status@, users_online)
                    &&& final(client).active_inbound_streams@
                        == old(client).active_inbound_streams@
                },
                IncomingMessage::Error(Error::Error { ref error }) => {
                    &&& r matches MessageAction::Log(line)
                    &&& line@ == error@
                    &&& final(client).active_inbound_streams@
                        == old(client).active_inbound_streams@
                },
                IncomingMessage::Response(ref resp) => {
                    &&& r matches MessageAction::Log(line)
                    &&& line@ == spec_response_line(
                        resp.spec_seq(),
                        resp.spec_success(),
                        match *resp {
                            Response::Logon { ref error, .. } => match *error {
                                Some(ref e) => Some(e@),
                                None => None,
                            },
                            Response::Generic { ref error, .. } => match *error {
                                Some(ref e) => Some(e@),
                                None => None,
                            },
                        },
                    )
                    &&& final(client).active_inbound_streams@
                        == old(client).active_inbound_streams@
                },
            }
        }),
{
    match message {
        IncomingMessage::Event(Event::TextMessage { channel, from, text, author, .. }) => {
            let line = handle_text_message(
                from.as_str(),
                text.as_str(),
                match &author {
                    Some(a) => Some(a.as_str()),
                    None => None,
                },
                channel.as_str(),
            );
            MessageAction::Log(line)
        },
        IncomingMessage::Event(Event::AudioStart {
            stream_id,
            channel,
            from,
            codec,
            codec_header,
            packet_duration,
            ..
        }) => {
            let header_ref = match &codec_header {
                Some(h) => Some(h.as_str()),
                None => None,
            };
            let _ = handle_audio_start(
                client,
                stream_id,
                from,
                codec,
                header_ref,
                channel,
                Some(packet_duration),
            );
            MessageAction::Ignore
        },
        IncomingMessage::Event(Event::AudioStop { stream_id }) => {
            let _ = handle_audio_stop(client, stream_id);
            MessageAction::Ignore
        },
        IncomingMessage::Event(Event::AudioData { stream_id, packet_id, data }) => {
            MessageAction::Audio { stream_id, packet_id, data }
        },
        IncomingMessage::Event(Event::OnlineStatus { channel, from, online }) => {
            MessageAction::Log(handle_online_status(channel.as_str(), from.as_str(), online))
        },
        IncomingMessage::Event(Event::ChannelStatus { channel, status, users_online, .. }) => {
            MessageAction::Log(
                handle_channel_status(channel.as_str(), status.as_str(), users_online),
            )
        },
        IncomingMessage::Error(Error::Error { error }) => MessageAction::Log(error),
        IncomingMessage::Response(resp) => {
            let (seq, success) = match &resp {
                Response::Logon { seq, success, .. } => (*seq, *success),
                Response::Generic { seq, success, .. } => (*seq, *success),
            };
            let error_ref = match &resp {
                Response::Logon { error, .. } => match error {
                    Some(e) => Some(e.as_str()),
                    None => None,
                },
                Response::Generic { error, .. } => match error {
                    Some(e) => Some(e.as_str()),
                    None => None,
                },
            };
            MessageAction::Log(handle_response(seq, success, error_ref))
        },
    }
}

} // verus!
