//! Wire codec: pure translation between frames and typed messages.
//!
//! Outgoing requests are serialized to structurally tagged JSON text: the
//! discriminant is carried in the `command` field, and fields absent for a
//! variant are omitted rather than emitted as null. Inbound text frames
//! are structurally untagged: the three families are told apart by which
//! fields are present, in a fixed order of attempts — error notice first,
//! then the event discriminant, then the response fallback. Inbound
//! binary frames carry a fixed nine-byte header before the payload.

use vstd::prelude::*;

use crate::bridge::{json_bool_field, json_bool_of, json_bytes_field, json_bytes_of, json_str_field,
    json_str_of, json_u64_field, json_u64_of};
use crate::error::{FormatError, ZelloError};
use crate::message::{Error, ErrorView, Event, EventView, IncomingMessage, IncomingMessageView,
    Message, Response, ResponseView};
use crate::strings::{chars_to_string, push_escaped, push_str_chars, push_u32, spec_escape,
    spec_u32_digits, str_eq};

verus! {

/// A quoted, escaped JSON string.
pub open spec fn spec_json_string(s: Seq<char>) -> Seq<char> {
    seq!['"'] + spec_escape(s) + seq!['"']
}

/// The items of a JSON array of strings, comma separated.
pub open spec fn spec_channels_items(v: Seq<String>) -> Seq<char>
    decreases v.len(),
{
    if v.len() == 0 {
        Seq::empty()
    } else if v.len() == 1 {
        spec_json_string(v[0]@)
    } else {
        spec_channels_items(v.drop_last()) + seq![','] + spec_json_string(v.last()@)
    }
}

/// The optional tail written for an optional string field: nothing, or a
/// comma, the quoted key, a colon and the quoted value.
pub open spec fn spec_opt_field(key: Seq<char>, o: Option<String>) -> Seq<char> {
    match o {
        Some(s) => seq![','] + spec_json_string(key) + seq![':'] + spec_json_string(s@),
        None => Seq::empty(),
    }
}

/// The JSON text an outgoing request is serialized to.
pub open spec fn spec_encode_message(m: Message) -> Seq<char> {
    match m {
        Message::Logon { seq, username, password, auth_token, channels } => "{\"command\":\"logon\",\"seq\":"@
            + spec_u32_digits(seq as int) + spec_opt_field("username"@, username) + spec_opt_field(
            "password"@,
            password,
        ) + spec_opt_field("auth_token"@, auth_token) + (match channels {
            Some(cs) => ",\"channels\":["@ + spec_channels_items(cs@) + "]"@,
            None => Seq::empty(),
        }) + "}"@,
        Message::SendTextMessage { seq, channel, for_user, text } => "{\"command\":\"send_text_message\",\"seq\":"@
            + spec_u32_digits(seq as int) + ",\"channel\":"@ + spec_json_string(channel@)
            + spec_opt_field("for"@, for_user) + ",\"text\":"@ + spec_json_string(text@) + "}"@,
        Message::StartStream { seq, channel, for_user, codec, codec_header, packet_duration } => "{\"command\":\"start_stream\",\"seq\":"@
            + spec_u32_digits(seq as int) + ",\"channel\":"@ + spec_json_string(channel@)
            + spec_opt_field("for"@, for_user) + ",\"codec\":"@ + spec_json_string(codec@)
            + spec_opt_field("codec_header"@, codec_header) + ",\"packet_duration\":"@
            + spec_u32_digits(packet_duration as int) + "}"@,
        Message::StopStream { seq, stream_id } => "{\"command\":\"stop_stream\",\"seq\":"@
            + spec_u32_digits(seq as int) + ",\"stream_id\":"@ + spec_u32_digits(stream_id as int)
            + "}"@,
    }
}

fn push_json_string(out: &mut Vec<char>, s: &str)
    ensures
        final(out)@ == old(out)@ + spec_json_string(s@),
{
    out.push('"');
    push_escaped(out, s);
    out.push('"');
    assert(final(out)@ =~= old(out)@ + spec_json_string(s@));
}

fn push_opt_field(out: &mut Vec<char>, key: &str, o: &Option<String>)
    ensures
        final(out)@ == old(out)@ + spec_opt_field(key@, *o),
{
    match o {
        Some(s) => {
            out.push(',');
            push_json_string(out, key);
            out.push(':');
            push_json_string(out, s.as_str());
            assert(final(out)@ =~= old(out)@ + spec_opt_field(key@, *o));
        },
        None => {
            assert(final(out)@ =~= old(out)@ + spec_opt_field(key@, *o));
        },
    }
}

fn push_channels_items(out: &mut Vec<char>, v: &Vec<String>)
    ensures
        final(out)@ == old(out)@ + spec_channels_items(v@),
{
    let n = v.len();
    let mut i: usize = 0;
    while i < n
        invariant
            i <= n,
            n == v@.len(),
            out@ == old(out)@ + spec_channels_items(v@.take(i as int)),
        decreases n - i,
    {
        if i > 0 {
            out.push(',');
        }
        push_json_string(out, v[i].as_str());
        proof {
            assert(v@.take(i as int + 1).drop_last() =~= v@.take(i as int));
            assert(v@.take(i as int + 1).last() == v@[i as int]);
        }
        assert(out@ =~= old(out)@ + spec_channels_items(v@.take(i as int + 1)));
        i += 1;
    }
    assert(v@.take(n as int) =~= v@);
}

/// Serialize an outgoing request to its JSON text frame.
pub fn encode_message(m: &Message) -> (r: String)
    ensures
        r@ == spec_encode_message(*m),
{
    let mut out: Vec<char> = Vec::new();
    match m {
        Message::Logon { seq, username, password, auth_token, channels } => {
            push_str_chars(&mut out, "{\"command\":\"logon\",\"seq\":");
            push_u32(&mut out, *seq);
            push_opt_field(&mut out, "username", username);
            push_opt_field(&mut out, "password", password);
            push_opt_field(&mut out, "auth_token", auth_token);
            match channels {
                Some(cs) => {
                    push_str_chars(&mut out, ",\"channels\":[");
                    push_channels_items(&mut out, cs);
                    push_str_chars(&mut out, "]");
                },
                None => {},
            }
            push_str_chars(&mut out, "}");
        },
        Message::SendTextMessage { seq, channel, for_user, text } => {
            push_str_chars(&mut out, "{\"command\":\"send_text_message\",\"seq\":");
            push_u32(&mut out, *seq);
            push_str_chars(&mut out, ",\"channel\":");
            push_json_string(&mut out, channel.as_str());
            push_opt_field(&mut out, "for", for_user);
            push_str_chars(&mut out, ",\"text\":");
            push_json_string(&mut out, text.as_str());
            push_str_chars(&mut out, "}");
        },
        Message::StartStream { seq, channel, for_user, codec, codec_header, packet_duration } => {
            push_str_chars(&mut out, "{\"command\":\"start_stream\",\"seq\":");
            push_u32(&mut out, *seq);
            push_str_chars(&mut out, ",\"channel\":");
            push_json_string(&mut out, channel.as_str());
            push_opt_field(&mut out, "for", for_user);
            push_str_chars(&mut out, ",\"codec\":");
            push_json_string(&mut out, codec.as_str());
            push_opt_field(&mut out, "codec_header", codec_header);
            push_str_chars(&mut out, ",\"packet_duration\":");
            push_u32(&mut out, *packet_duration);
            push_str_chars(&mut out, "}");
        },
        Message::StopStream { seq, stream_id } => {
            push_str_chars(&mut out, "{\"command\":\"stop_stream\",\"seq\":");
            push_u32(&mut out, *seq);
            push_str_chars(&mut out, ",\"stream_id\":");
            push_u32(&mut out, *stream_id);
            push_str_chars(&mut out, "}");
        },
    }
    assert(out@ =~= spec_encode_message(*m));
    chars_to_string(&out)
}

/// A 64-bit field value narrowed to 32 bits, where it fits.
pub open spec fn spec_u32_of_u64(x: u64) -> Option<u32> {
    if x <= 0xFFFF_FFFFu64 {
        Some(x as u32)
    } else {
        None
    }
}

fn u32_of_u64(x: u64) -> (r: Option<u32>)
    ensures
        r == spec_u32_of_u64(x),
{
    if x <= 0xFFFF_FFFFu64 {
        Some(x as u32)
    } else {
        None
    }
}

/// The decoding of a text frame whose `command` field is `on_error`.
pub open spec fn spec_decode_error(t: Seq<char>) -> Option<IncomingMessageView> {
    match json_str_of(t, "error"@) {
        Some(e) => Some(IncomingMessageView::Error(ErrorView::Error { error: e })),
        None => None,
    }
}

/// The decoding of an `on_text_message` event.
pub open spec fn spec_decode_text_event(t: Seq<char>) -> Option<IncomingMessageView> {
    match (json_u64_of(t, "message_id"@), json_str_of(t, "channel"@), json_str_of(t, "from"@),
    json_str_of(t, "text"@)) {
        (Some(mid), Some(ch), Some(fr), Some(tx)) => Some(
            IncomingMessageView::Event(EventView::TextMessage {
                message_id: mid,
                channel: ch,
                from: fr,
                for_user: json_str_of(t, "for"@),
                text: tx,
                author: json_str_of(t, "author"@),
            }),
        ),
        _ => None,
    }
}

/// The decoding of an `on_stream_start` event.
pub open spec fn spec_decode_stream_start(t: Seq<char>) -> Option<IncomingMessageView> {
    match (json_u64_of(t, "stream_id"@), json_str_of(t, "channel"@), json_str_of(t, "from"@),
    json_str_of(t, "codec"@), json_u64_of(t, "packet_duration"@)) {
        (Some(sid), Some(ch), Some(fr), Some(cod), Some(pd)) => match (spec_u32_of_u64(sid),
        spec_u32_of_u64(pd)) {
            (Some(sid32), Some(pd32)) => Some(
                IncomingMessageView::Event(EventView::AudioStart {
                    stream_id: sid32,
                    channel: ch,
                    from: fr,
                    for_user: json_str_of(t, "for"@),
                    codec: cod,
                    codec_header: json_str_of(t, "codec_header"@),
                    packet_duration: pd32,
                }),
            ),
            _ => None,
        },
        _ => None,
    }
}

/// The decoding of an `on_stream_data` event carried as text.
pub open spec fn spec_decode_stream_data(t: Seq<char>) -> Option<IncomingMessageView> {
    match (json_u64_of(t, "stream_id"@), json_u64_of(t, "packet_id"@), json_bytes_of(
        t,
        "data"@,
    )) {
        (Some(sid), Some(pid), Some(d)) => match (spec_u32_of_u64(sid), spec_u32_of_u64(pid)) {
            (Some(sid32), Some(pid32)) => Some(
                IncomingMessageView::Event(EventView::AudioData {
                    stream_id: sid32,
                    packet_id: pid32,
                    data: d,
                }),
            ),
            _ => None,
        },
        _ => None,
    }
}

/// The decoding of an `on_stream_stop` event.
pub open spec fn spec_decode_stream_stop(t: Seq<char>) -> Option<IncomingMessageView> {
    match json_u64_of(t, "stream_id"@) {
        Some(sid) => match spec_u32_of_u64(sid) {
            Some(sid32) => Some(IncomingMessageView::Event(EventView::AudioStop { stream_id: sid32 })),
            None => None,
        },
        None => None,
    }
}

/// The decoding of an `on_channel_status` event. The image list is not
/// part of the decoded value.
pub open spec fn spec_decode_channel_status(t: Seq<char>) -> Option<IncomingMessageView> {
    match (json_str_of(t, "channel"@), json_str_of(t, "status"@), json_u64_of(
        t,
        "users_online"@,
    )) {
        (Some(ch), Some(st), Some(uo)) => match spec_u32_of_u64(uo) {
            Some(uo32) => Some(
                IncomingMessageView::Event(EventView::ChannelStatus {
                    channel: ch,
                    status: st,
                    users_online: uo32,
                    images: None,
                }),
            ),
            None => None,
        },
        _ => None,
    }
}

/// The decoding of an `on_online_status` event.
pub open spec fn spec_decode_online_status(t: Seq<char>) -> Option<IncomingMessageView> {
    match (json_str_of(t, "channel"@), json_str_of(t, "from"@), json_bool_of(t, "online"@)) {
        (Some(ch), Some(fr), Some(on)) => Some(
            IncomingMessageView::Event(EventView::OnlineStatus { channel: ch, from: fr, online: on }),
        ),
        _ => None,
    }
}

/// The response fallback: a text frame with no recognised `command` field
/// decodes as a response, a logon response where a refresh token is
/// present.
pub open spec fn spec_decode_response(t: Seq<char>) -> Option<IncomingMessageView> {
    match (json_u64_of(t, "seq"@), json_bool_of(t, "success"@)) {
        (Some(sq), Some(su)) => match spec_u32_of_u64(sq) {
            Some(s32) => match json_str_of(t, "refresh_token"@) {
                Some(rt) => Some(
                    IncomingMessageView::Response(ResponseView::Logon {
                        seq: s32,
                        success: su,
                        refresh_token: rt,
                        error: json_str_of(t, "error"@),
                    }),
                ),
                None => Some(
                    IncomingMessageView::Response(ResponseView::Generic {
                        seq: s32,
                        success: su,
                        error: json_str_of(t, "error"@),
                    }),
                ),
            },
            None => None,
        },
        _ => None,
    }
}

/// The decoding of an inbound text frame: the error-notice shape is
/// attempted first, then the event selected by the `command` field, and a
/// frame with no recognised command falls back to the response shape.
pub open spec fn spec_decode_text(t: Seq<char>) -> Option<IncomingMessageView> {
    let cmd = json_str_of(t, "command"@);
    if cmd == Some("on_error"@) {
        spec_decode_error(t)
    } else if cmd == Some("on_text_message"@) {
        spec_decode_text_event(t)
    } else if cmd == Some("on_stream_start"@) {
        spec_decode_stream_start(t)
    } else if cmd == Some("on_stream_data"@) {
        spec_decode_stream_data(t)
    } else if cmd == Some("on_stream_stop"@) {
        spec_decode_stream_stop(t)
    } else if cmd == Some("on_channel_status"@) {
        spec_decode_channel_status(t)
    } else if cmd == Some("on_online_status"@) {
        spec_decode_online_status(t)
    } else {
        spec_decode_response(t)
    }
}

fn decode_error(text: &str) -> (r: Result<IncomingMessage, ZelloError>)
    ensures
        match r {
            Ok(m) => spec_decode_error(text@) == Some(m@),
            Err(e) => spec_decode_error(text@) is None && e == ZelloError::FormatError(
                FormatError::BadJsonShape,
            ),
        },
{
    match json_str_field(text, "error") {
        Some(e) => Ok(IncomingMessage::Error(Error::Error { error: e })),
        None => Err(ZelloError::FormatError(FormatError::BadJsonShape)),
    }
}

fn decode_text_event(text: &str) -> (r: Result<IncomingMessage, ZelloError>)
    ensures
        match r {
            Ok(m) => spec_decode_text_event(text@) == Some(m@),
            Err(e) => spec_decode_text_event(text@) is None && e == ZelloError::FormatError(
                FormatError::BadJsonShape,
            ),
        },
{
    match (json_u64_field(text, "message_id"), json_str_field(text, "channel"), json_str_field(
        text,
        "from",
    ), json_str_field(text, "text")) {
        (Some(mid), Some(ch), Some(fr), Some(tx)) => Ok(
            IncomingMessage::Event(Event::TextMessage {
                message_id: mid,
                channel: ch,
                from: fr,
                for_user: json_str_field(text, "for"),
                text: tx,
                author: json_str_field(text, "author"),
            }),
        ),
        _ => Err(ZelloError::FormatError(FormatError::BadJsonShape)),
    }
}

fn decode_stream_start(text: &str) -> (r: Result<IncomingMessage, ZelloError>)
    ensures
        match r {
            Ok(m) => spec_decode_stream_start(text@) == Some(m@),
            Err(e) => spec_decode_stream_start(text@) is None && e == ZelloError::FormatError(
                FormatError::BadJsonShape,
            ),
        },
{
    match (json_u64_field(text, "stream_id"), json_str_field(text, "channel"), json_str_field(
        text,
        "from",
    ), json_str_field(text, "codec"), json_u64_field(text, "packet_duration")) {
        (Some(sid), Some(ch), Some(fr), Some(cod), Some(pd)) => match (u32_of_u64(sid), u32_of_u64(
            pd,
        )) {
            (Some(sid32), Some(pd32)) => Ok(
                IncomingMessage::Event(Event::AudioStart {
                    stream_id: sid32,
                    channel: ch,
                    from: fr,
                    for_user: json_str_field(text, "for"),
                    codec: cod,
                    codec_header: json_str_field(text, "codec_header"),
                    packet_duration: pd32,
                }),
            ),
            _ => Err(ZelloError::FormatError(FormatError::BadJsonShape)),
        },
        _ => Err(ZelloError::FormatError(FormatError::BadJsonShape)),
    }
}

fn decode_stream_data(text: &str) -> (r: Result<IncomingMessage, ZelloError>)
    ensures
        match r {
            Ok(m) => spec_decode_stream_data(text@) == Some(m@),
            Err(e) => spec_decode_stream_data(text@) is None && e == ZelloError::FormatError(
                FormatError::BadJsonShape,
            ),
        },
{
    match (json_u64_field(text, "stream_id"), json_u64_field(text, "packet_id"), json_bytes_field(
        text,
        "data",
    )) {
        (Some(sid), Some(pid), Some(d)) => match (u32_of_u64(sid), u32_of_u64(pid)) {
            (Some(sid32), Some(pid32)) => Ok(
                IncomingMessage::Event(Event::AudioData {
                    stream_id: sid32,
                    packet_id: pid32,
                    data: d,
                }),
            ),
            _ => Err(ZelloError::FormatError(FormatError::BadJsonShape)),
        },
        _ => Err(ZelloError::FormatError(FormatError::BadJsonShape)),
    }
}

fn decode_stream_stop(text: &str) -> (r: Result<IncomingMessage, ZelloError>)
    ensures
        match r {
            Ok(m) => spec_decode_stream_stop(text@) == Some(m@),
            Err(e) => spec_decode_stream_stop(text@) is None && e == ZelloError::FormatError(
                FormatError::BadJsonShape,
            ),
        },
{
    match json_u64_field(text, "stream_id") {
        Some(sid) => match u32_of_u64(sid) {
            Some(sid32) => Ok(IncomingMessage::Event(Event::AudioStop { stream_id: sid32 })),
            None => Err(ZelloError::FormatError(FormatError::BadJsonShape)),
        },
        None => Err(ZelloError::FormatError(FormatError::BadJsonShape)),
    }
}

fn decode_channel_status(text: &str) -> (r: Result<IncomingMessage, ZelloError>)
    ensures
        match r {
            Ok(m) => spec_decode_channel_status(text@) == Some(m@),
            Err(e) => spec_decode_channel_status(text@) is None && e == ZelloError::FormatError(
                FormatError::BadJsonShape,
            ),
        },
{
    match (json_str_field(text, "channel"), json_str_field(text, "status"), json_u64_field(
        text,
        "users_online",
    )) {
        (Some(ch), Some(st), Some(uo)) => match u32_of_u64(uo) {
            Some(uo32) => Ok(
                IncomingMessage::Event(Event::ChannelStatus {
                    channel: ch,
                    status: st,
                    users_online: uo32,
                    images: None,
                }),
            ),
            None => Err(ZelloError::FormatError(FormatError::BadJsonShape)),
        },
        _ => Err(ZelloError::FormatError(FormatError::BadJsonShape)),
    }
}

fn decode_online_status(text: &str) -> (r: Result<IncomingMessage, ZelloError>)
    ensures
        match r {
            Ok(m) => spec_decode_online_status(text@) == Some(m@),
            Err(e) => spec_decode_online_status(text@) is None && e == ZelloError::FormatError(
                FormatError::BadJsonShape,
            ),
        },
{
    match (json_str_field(text, "channel"), json_str_field(text, "from"), json_bool_field(
        text,
        "online",
    )) {
        (Some(ch), Some(fr), Some(on)) => Ok(
            IncomingMessage::Event(Event::OnlineStatus { channel: ch, from: fr, online: on }),
        ),
        _ => Err(ZelloError::FormatError(FormatError::BadJsonShape)),
    }
}

fn decode_response(text: &str) -> (r: Result<IncomingMessage, ZelloError>)
    ensures
        match r {
            Ok(m) => spec_decode_response(text@) == Some(m@),
            Err(e) => spec_decode_response(text@) is None && e == ZelloError::FormatError(
                FormatError::BadJsonShape,
            ),
        },
{
    match (json_u64_field(text, "seq"), json_bool_field(text, "success")) {
        (Some(sq), Some(su)) => match u32_of_u64(sq) {
            Some(s32) => match json_str_field(text, "refresh_token") {
                Some(rt) => Ok(
                    IncomingMessage::Response(Response::Logon {
                        seq: s32,
                        success: su,
                        refresh_token: rt,
                        error: json_str_field(text, "error"),
                    }),
                ),
                None => Ok(
                    IncomingMessage::Response(Response::Generic {
                        seq: s32,
                        success: su,
                        error: json_str_field(text, "error"),
                    }),
                ),
            },
            None => Err(ZelloError::FormatError(FormatError::BadJsonShape)),
        },
        _ => Err(ZelloError::FormatError(FormatError::BadJsonShape)),
    }
}

/// Decode an inbound text frame into a typed message. A text that
/// matches no known shape fails with a format error.
pub fn decode_text(text: &str) -> (r: Result<IncomingMessage, ZelloError>)
    ensures
        match r {
            Ok(m) => spec_decode_text(text@) == Some(m@),
            Err(e) => spec_decode_text(text@) is None && e == ZelloError::FormatError(
                FormatError::BadJsonShape,
            ),
        },
{
    let cmd = json_str_field(text, "command");
    match cmd {
        Some(c) => {
            if str_eq(c.as_str(), "on_error") {
                decode_error(text)
            } else if str_eq(c.as_str(), "on_text_message") {
                decode_text_event(text)
            } else if str_eq(c.as_str(), "on_stream_start") {
                decode_stream_start(text)
            } else if str_eq(c.as_str(), "on_stream_data") {
                decode_stream_data(text)
            } else if str_eq(c.as_str(), "on_stream_stop") {
                decode_stream_stop(text)
            } else if str_eq(c.as_str(), "on_channel_status") {
                decode_channel_status(text)
            } else if str_eq(c.as_str(), "on_online_status") {
                decode_online_status(text)
            } else {
                decode_response(text)
            }
        },
        None => decode_response(text),
    }
}

/// The 32-bit big-endian value of four bytes.
pub open spec fn spec_u32_be(b: Seq<u8>) -> u32
    recommends
        b.len() == 4,
{
    (b[0] * 0x1000000 + b[1] * 0x10000 + b[2] * 0x100 + b[3]) as u32
}

/// The decoding of an inbound binary frame: a one-byte frame-type tag, a
/// four-byte big-endian stream identifier, a four-byte big-endian packet
/// identifier, and the compressed payload as the remainder.
pub open spec fn spec_decode_binary(d: Seq<u8>) -> Option<IncomingMessageView> {
    if d.len() >= 9 {
        Some(
            IncomingMessageView::Event(EventView::AudioData {
                stream_id: spec_u32_be(d.subrange(1, 5)),
                packet_id: spec_u32_be(d.subrange(5, 9)),
                data: d.skip(9),
            }),
        )
    } else {
        None
    }
}

fn u32_be(b: &[u8], start: usize) -> (r: u32)
    requires
        start + 4 <= b@.len(),
    ensures
        r == spec_u32_be(b@.subrange(start as int, start as int + 4)),
{
    let n: usize = b.len();
    assert(start + 4 <= n);
    let b0 = *vstd::slice::slice_index_get(b, start);
    let b1 = *vstd::slice::slice_index_get(b, start + 1);
    let b2 = *vstd::slice::slice_index_get(b, start + 2);
    let b3 = *vstd::slice::slice_index_get(b, start + 3);
    (b0 as u32) * 0x1000000 + (b1 as u32) * 0x10000 + (b2 as u32) * 0x100 + (b3 as u32)
}

/// Decode an inbound binary frame into an audio-data event. A frame
/// shorter than the nine-byte header fails with a format error.
pub fn decode_binary(data: &[u8]) -> (r: Result<IncomingMessage, ZelloError>)
    ensures
        match r {
            Ok(m) => spec_decode_binary(data@) == Some(m@),
            Err(e) => spec_decode_binary(data@) is None && e == ZelloError::FormatError(
                FormatError::BadBinaryHeader,
            ),
        },
{
    if data.len() < 9 {
        return Err(ZelloError::FormatError(FormatError::BadBinaryHeader));
    }
    let stream_id = u32_be(data, 1);
    let packet_id = u32_be(data, 5);
    let payload = vstd::slice::slice_subrange(data, 9, data.len());
    let audio: Vec<u8> = vstd::slice::slice_to_vec(payload);
    assert(audio@ =~= data@.skip(9));
    Ok(IncomingMessage::Event(Event::AudioData { stream_id, packet_id, data: audio }))
}

} // verus!

