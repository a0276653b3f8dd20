//! Tests for the wire codec: the codec header's binary layout and base64
//! form, the JSON text of outgoing requests, and the decoding of inbound
//! text and binary frames.

use zello_client::error::{FormatError, ZelloError};
use zello_client::message::{CodecHeader, Error, Event, IncomingMessage, Message, Response};
use zello_client::wire::{decode_binary, decode_text, encode_message};

#[test]
fn test_codec_header_round_trip() {
    let h = CodecHeader {
        sample_rate_hz: 48000,
        frames_per_packet: 2,
        frame_size_ms: 20,
    };
    let bytes = h.to_bytes();
    assert_eq!(bytes.len(), 4);
    let back = CodecHeader::from_bytes(bytes.as_slice()).unwrap();
    assert_eq!(back, h);
}

#[test]
fn test_codec_header_example() {
    let h = CodecHeader::from_bytes(&[0x80, 0x3E, 0x01, 0x3C]).unwrap();
    assert_eq!(h.sample_rate_hz, 16000);
    assert_eq!(h.frames_per_packet, 1);
    assert_eq!(h.frame_size_ms, 60);
}

#[test]
fn test_codec_header_wrong_length() {
    let r = CodecHeader::from_bytes(&[0x80, 0x3E, 0x01]);
    assert_eq!(
        r.unwrap_err(),
        ZelloError::FormatError(FormatError::BadHeaderLength)
    );
    let r = CodecHeader::from_bytes(&[0x80, 0x3E, 0x01, 0x3C, 0x00]);
    assert_eq!(
        r.unwrap_err(),
        ZelloError::FormatError(FormatError::BadHeaderLength)
    );
    let r = CodecHeader::from_bytes(&[]);
    assert_eq!(
        r.unwrap_err(),
        ZelloError::FormatError(FormatError::BadHeaderLength)
    );
}

#[test]
fn test_codec_header_default() {
    let h = CodecHeader::default();
    assert_eq!(h.sample_rate_hz, 16000);
    assert_eq!(h.frames_per_packet, 1);
    assert_eq!(h.frame_size_ms, 60);
}

#[test]
fn test_codec_header_base64() {
    let h = CodecHeader::default();
    assert_eq!(h.to_base64(), "gD4BPA==");
    let back = CodecHeader::from_base64("gD4BPA==").unwrap();
    assert_eq!(back, h);
}

#[test]
fn test_codec_header_bad_base64() {
    let r = CodecHeader::from_base64("not base64!!");
    assert_eq!(
        r.unwrap_err(),
        ZelloError::FormatError(FormatError::BadBase64)
    );
    // Valid base64 of the wrong decoded length.
    let r = CodecHeader::from_base64("gD4B");
    assert_eq!(
        r.unwrap_err(),
        ZelloError::FormatError(FormatError::BadHeaderLength)
    );
}

#[test]
fn test_encode_stop_stream() {
    let msg = Message::stop_stream(12, 7);
    let json = encode_message(&msg);
    assert_eq!(json, "{\"command\":\"stop_stream\",\"seq\":12,\"stream_id\":7}");
}

#[test]
fn test_encode_logon() {
    let msg = Message::logon_password(
        1,
        "user".to_string(),
        "pass".to_string(),
        "tok".to_string(),
        "chan".to_string(),
    );
    let json = encode_message(&msg);
    assert_eq!(
        json,
        "{\"command\":\"logon\",\"seq\":1,\"username\":\"user\",\"password\":\"pass\",\
         \"auth_token\":\"tok\",\"channels\":[\"chan\"]}"
    );
}

#[test]
fn test_encode_escaping_round_trips_through_json() {
    let text = "He said \"hi\"\nand left\t\\done";
    let msg = Message::send_text(3, "chan".to_string(), text.to_string());
    let json = encode_message(&msg);
    let v: serde_json::Value = serde_json::from_str(&json).unwrap();
    assert_eq!(v["command"], "send_text_message");
    assert_eq!(v["seq"], 3);
    assert_eq!(v["channel"], "chan");
    assert_eq!(v["text"], text);
}

#[test]
fn test_encode_omits_absent_fields() {
    let msg = Message::start_stream(2, "chan".to_string(), "opus".to_string(), 20);
    let json = encode_message(&msg);
    assert!(!json.contains("\"for\""));
    assert!(!json.contains("codec_header"));
    assert!(!json.contains("null"));
    assert!(json.contains("\"packet_duration\":20"));
}

#[test]
fn test_decode_text_logon_response() {
    let m = decode_text("{\"seq\":1,\"success\":true,\"refresh_token\":\"rt\"}").unwrap();
    match m {
        IncomingMessage::Response(Response::Logon {
            seq,
            success,
            refresh_token,
            error,
        }) => {
            assert_eq!(seq, 1);
            assert!(success);
            assert_eq!(refresh_token, "rt");
            assert!(error.is_none());
        }
        _ => panic!("expected a logon response"),
    }
}

#[test]
fn test_decode_text_generic_response() {
    let m = decode_text("{\"seq\":4,\"success\":false,\"error\":\"denied\"}").unwrap();
    match m {
        IncomingMessage::Response(Response::Generic {
            seq,
            success,
            error,
        }) => {
            assert_eq!(seq, 4);
            assert!(!success);
            assert_eq!(error.as_deref(), Some("denied"));
        }
        _ => panic!("expected a generic response"),
    }
}

#[test]
fn test_decode_text_error_notice() {
    let m = decode_text("{\"command\":\"on_error\",\"error\":\"boom\"}").unwrap();
    match m {
        IncomingMessage::Error(Error::Error { error }) => assert_eq!(error, "boom"),
        _ => panic!("expected an error notice"),
    }
}

#[test]
fn test_decode_text_message_event() {
    let m = decode_text(
        "{\"command\":\"on_text_message\",\"message_id\":10,\"channel\":\"chan\",\
         \"from\":\"alice\",\"text\":\"hi\"}",
    )
    .unwrap();
    match m {
        IncomingMessage::Event(Event::TextMessage {
            message_id,
            channel,
            from,
            for_user,
            text,
            author,
        }) => {
            assert_eq!(message_id, 10);
            assert_eq!(channel, "chan");
            assert_eq!(from, "alice");
            assert!(for_user.is_none());
            assert_eq!(text, "hi");
            assert!(author.is_none());
        }
        _ => panic!("expected a text message event"),
    }
}

#[test]
fn test_decode_text_stream_start_and_stop() {
    let m = decode_text(
        "{\"command\":\"on_stream_start\",\"stream_id\":5,\"channel\":\"chan\",\
         \"from\":\"bob\",\"codec\":\"opus\",\"codec_header\":\"gD4BPA==\",\
         \"packet_duration\":60}",
    )
    .unwrap();
    match m {
        IncomingMessage::Event(Event::AudioStart {
            stream_id,
            codec,
            codec_header,
            packet_duration,
            ..
        }) => {
            assert_eq!(stream_id, 5);
            assert_eq!(codec, "opus");
            assert_eq!(codec_header.as_deref(), Some("gD4BPA=="));
            assert_eq!(packet_duration, 60);
        }
        _ => panic!("expected a stream start event"),
    }

    let m = decode_text("{\"command\":\"on_stream_stop\",\"stream_id\":5}").unwrap();
    match m {
        IncomingMessage::Event(Event::AudioStop { stream_id }) => assert_eq!(stream_id, 5),
        _ => panic!("expected a stream stop event"),
    }
}

#[test]
fn test_decode_text_status_events() {
    let m = decode_text(
        "{\"command\":\"on_channel_status\",\"channel\":\"chan\",\"status\":\"online\",\
         \"users_online\":3}",
    )
    .unwrap();
    match m {
        IncomingMessage::Event(Event::ChannelStatus {
            channel,
            status,
            users_online,
            images,
        }) => {
            assert_eq!(channel, "chan");
            assert_eq!(status, "online");
            assert_eq!(users_online, 3);
            assert!(images.is_none());
        }
        _ => panic!("expected a channel status event"),
    }

    let m = decode_text(
        "{\"command\":\"on_online_status\",\"channel\":\"chan\",\"from\":\"carol\",\
         \"online\":true}",
    )
    .unwrap();
    match m {
        IncomingMessage::Event(Event::OnlineStatus { from, online, .. }) => {
            assert_eq!(from, "carol");
            assert!(online);
        }
        _ => panic!("expected an online status event"),
    }
}

#[test]
fn test_decode_text_bad_shape() {
    let r = decode_text("this is not json");
    assert_eq!(
        r.unwrap_err(),
        ZelloError::FormatError(FormatError::BadJsonShape)
    );
    // A known command with its required fields missing.
    let r = decode_text("{\"command\":\"on_text_message\"}");
    assert_eq!(
        r.unwrap_err(),
        ZelloError::FormatError(FormatError::BadJsonShape)
    );
    // Neither a command nor the response fields.
    let r = decode_text("{\"unrelated\":true}");
    assert_eq!(
        r.unwrap_err(),
        ZelloError::FormatError(FormatError::BadJsonShape)
    );
}

#[test]
fn test_decode_text_stream_data() {
    let m = decode_text(
        "{\"command\":\"on_stream_data\",\"stream_id\":1,\"packet_id\":2,\"data\":[1,2,3]}",
    )
    .unwrap();
    match m {
        IncomingMessage::Event(Event::AudioData {
            stream_id,
            packet_id,
            data,
        }) => {
            assert_eq!(stream_id, 1);
            assert_eq!(packet_id, 2);
            assert_eq!(data, vec![1, 2, 3]);
        }
        _ => panic!("expected an audio data event"),
    }
}

#[test]
fn test_decode_binary_frame() {
    let frame: Vec<u8> = vec![1, 0, 0, 0, 5, 0, 0, 1, 2, 9, 8, 7];
    let m = decode_binary(frame.as_slice()).unwrap();
    match m {
        IncomingMessage::Event(Event::AudioData {
            stream_id,
            packet_id,
            data,
        }) => {
            assert_eq!(stream_id, 5);
            assert_eq!(packet_id, 258);
            assert_eq!(data, vec![9, 8, 7]);
        }
        _ => panic!("expected an audio data event"),
    }
}

#[test]
fn test_decode_binary_empty_payload() {
    let frame: Vec<u8> = vec![1, 0, 0, 0, 1, 0, 0, 0, 2];
    let m = decode_binary(frame.as_slice()).unwrap();
    match m {
        IncomingMessage::Event(Event::AudioData { data, .. }) => assert!(data.is_empty()),
        _ => panic!("expected an audio data event"),
    }
}

#[test]
fn test_decode_binary_short_frame() {
    let frame: Vec<u8> = vec![1, 0, 0, 0, 5, 0, 0, 1];
    let r = decode_binary(frame.as_slice());
    assert_eq!(
        r.unwrap_err(),
        ZelloError::FormatError(FormatError::BadBinaryHeader)
    );
}
