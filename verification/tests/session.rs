//! Tests for the session state machine: authentication, stream
//! lifecycle, and message dispatch.

use zello_client::client::{ZelloClient, ZelloConfig};
use zello_client::error::ZelloError;
use zello_client::handlers::{
    handle_channel_status, handle_message, handle_response, handle_text_message, MessageAction,
};
use zello_client::message::{Event, IncomingMessage, Message, Response};
use zello_client::protocol::{process_frame, Frame, FrameStep, Protocol};

fn test_config() -> ZelloConfig {
    ZelloConfig::new(
        "user".to_string(),
        "pass".to_string(),
        "token".to_string(),
        "channel".to_string(),
    )
}

fn authenticated_client() -> ZelloClient {
    let (mut client, logon) = ZelloClient::new(test_config()).unwrap();
    assert_eq!(logon.seq(), Some(1));
    let response = IncomingMessage::Response(Response::Logon {
        seq: 1,
        success: true,
        refresh_token: "rt".to_string(),
        error: None,
    });
    client.complete_logon(Some(response)).unwrap();
    assert!(client.is_authenticated());
    client
}

#[test]
fn test_new_rejects_invalid_config() {
    let config = ZelloConfig::new(
        "user".to_string(),
        "pass".to_string(),
        "token".to_string(),
        String::new(),
    );
    let r = ZelloClient::new(config);
    assert!(matches!(r, Err(ZelloError::ConfigError(_))));
}

#[test]
fn test_successful_logon() {
    let client = authenticated_client();
    assert_eq!(client.channel(), "channel");
}

#[test]
fn test_auth_failure_carries_server_message() {
    let (mut client, _logon) = ZelloClient::new(test_config()).unwrap();
    let response = IncomingMessage::Response(Response::Logon {
        seq: 1,
        success: false,
        refresh_token: String::new(),
        error: Some("bad token".to_string()),
    });
    let r = client.complete_logon(Some(response));
    match r {
        Err(ZelloError::AuthenticationError(msg)) => assert_eq!(msg, "bad token"),
        other => panic!("expected an authentication error, got {other:?}"),
    }
    assert!(!client.is_authenticated());
}

#[test]
fn test_auth_unexpected_message_is_protocol_error() {
    let (mut client, _logon) = ZelloClient::new(test_config()).unwrap();
    let event = IncomingMessage::Event(Event::AudioStop { stream_id: 1 });
    let r = client.complete_logon(Some(event));
    assert!(matches!(r, Err(ZelloError::ProtocolError(_))));

    let (mut client, _logon) = ZelloClient::new(test_config()).unwrap();
    let r = client.complete_logon(None);
    assert!(matches!(r, Err(ZelloError::ProtocolError(_))));
}

#[test]
fn test_operations_require_authentication() {
    let (mut client, _logon) = ZelloClient::new(test_config()).unwrap();
    assert!(matches!(
        client.send_text_message("hi"),
        Err(ZelloError::NotConnected)
    ));
    assert!(matches!(
        client.start_audio_stream("opus", 20),
        Err(ZelloError::NotConnected)
    ));
    assert!(matches!(
        client.send_audio_packet(1, vec![0u8; 4]),
        Err(ZelloError::NotConnected)
    ));
    assert!(matches!(
        client.stop_audio_stream(1),
        Err(ZelloError::NotConnected)
    ));
}

#[test]
fn test_send_text_message_builds_request() {
    let mut client = authenticated_client();
    let msg = client.send_text_message("Hello").unwrap();
    match msg {
        Message::SendTextMessage {
            seq,
            channel,
            for_user,
            text,
        } => {
            assert_eq!(seq, 2);
            assert_eq!(channel, "channel");
            assert!(for_user.is_none());
            assert_eq!(text, "Hello");
        }
        _ => panic!("expected a text message request"),
    }
}

#[test]
fn test_stream_lifecycle() {
    let mut client = authenticated_client();
    let (seq, request) = client.start_audio_stream("opus", 20).unwrap();
    assert_eq!(seq, 2);
    assert_eq!(request.seq(), Some(2));
    let ack = IncomingMessage::Response(Response::Generic {
        seq,
        success: true,
        error: None,
    });
    let stream_id = client.complete_start_stream(Some(ack)).unwrap();
    assert_eq!(stream_id, seq);

    // A packet for the started stream passes through unchanged.
    let out = client.send_audio_packet(stream_id, vec![1, 2, 3]).unwrap();
    assert_eq!(out, vec![1, 2, 3]);

    // Stopping the stream builds the request and removes the entry.
    let stop = client.stop_audio_stream(stream_id).unwrap();
    match stop {
        Message::StopStream {
            seq: stop_seq,
            stream_id: sid,
        } => {
            assert_eq!(stop_seq, 3);
            assert_eq!(sid, stream_id);
        }
        _ => panic!("expected a stop request"),
    }
}

#[test]
fn test_send_audio_packet_unknown_stream() {
    let mut client = authenticated_client();
    let (seq, _request) = client.start_audio_stream("opus", 20).unwrap();
    let ack = IncomingMessage::Response(Response::Generic {
        seq,
        success: true,
        error: None,
    });
    client.complete_start_stream(Some(ack)).unwrap();

    // An unrelated, never-started identifier fails with an audio error.
    let r = client.send_audio_packet(999, vec![0u8; 10]);
    match r {
        Err(ZelloError::AudioError(msg)) => assert_eq!(msg, "Invalid stream ID"),
        other => panic!("expected an audio error, got {other:?}"),
    }
}

#[test]
fn test_stop_stream_removes_entry() {
    let mut client = authenticated_client();
    let (seq, _request) = client.start_audio_stream("opus", 20).unwrap();
    let ack = IncomingMessage::Response(Response::Generic {
        seq,
        success: true,
        error: None,
    });
    let stream_id = client.complete_start_stream(Some(ack)).unwrap();

    // The first stop succeeds with no acknowledgement awaited.
    client.stop_audio_stream(stream_id).unwrap();

    // A second stop on the same identifier fails: the entry is gone.
    let r = client.stop_audio_stream(stream_id);
    assert!(matches!(r, Err(ZelloError::AudioError(_))));

    // And packets for it are refused too.
    let r = client.send_audio_packet(stream_id, vec![0u8; 4]);
    assert!(matches!(r, Err(ZelloError::AudioError(_))));
}

#[test]
fn test_failed_stream_start_records_nothing() {
    let mut client = authenticated_client();
    let (seq, _request) = client.start_audio_stream("opus", 20).unwrap();
    let nack = IncomingMessage::Response(Response::Generic {
        seq,
        success: false,
        error: Some("no".to_string()),
    });
    let r = client.complete_start_stream(Some(nack));
    match r {
        Err(ZelloError::AudioError(msg)) => assert_eq!(msg, "no"),
        other => panic!("expected an audio error, got {other:?}"),
    }
    // The stream was never recorded.
    let r = client.send_audio_packet(seq, vec![0u8; 4]);
    assert!(matches!(r, Err(ZelloError::AudioError(_))));
}

#[test]
fn test_close_ends_session() {
    let mut client = authenticated_client();
    client.close();
    assert!(!client.is_authenticated());
    assert!(matches!(
        client.send_text_message("hi"),
        Err(ZelloError::NotConnected)
    ));
}

#[test]
fn test_next_seq_advances_and_wraps() {
    let mut protocol = Protocol::new();
    assert_eq!(protocol.next_seq(), 1);
    assert_eq!(protocol.next_seq(), 2);

    let mut protocol = Protocol { sequence: u32::MAX };
    assert_eq!(protocol.next_seq(), u32::MAX);
    assert_eq!(protocol.next_seq(), 0);
    assert_eq!(protocol.next_seq(), 1);
}

#[test]
fn test_request_seq_round_trip() {
    // The number handed out right before construction reads back from
    // every request variant.
    let mut protocol = Protocol::new();

    let seq = protocol.next_seq();
    let msg = Message::logon_password(
        seq,
        "u".to_string(),
        "p".to_string(),
        "t".to_string(),
        "c".to_string(),
    );
    assert_eq!(msg.seq(), Some(seq));

    let seq = protocol.next_seq();
    let msg = Message::send_text(seq, "c".to_string(), "hi".to_string());
    assert_eq!(msg.seq(), Some(seq));

    let seq = protocol.next_seq();
    let msg = Message::start_stream(seq, "c".to_string(), "opus".to_string(), 20);
    assert_eq!(msg.seq(), Some(seq));

    let seq = protocol.next_seq();
    let msg = Message::stop_stream(seq, 5);
    assert_eq!(msg.seq(), Some(seq));
}

#[test]
fn test_inbound_stream_bookkeeping() {
    let mut client = authenticated_client();
    client
        .add_inbound_stream(
            7,
            "channel".to_string(),
            "opus".to_string(),
            Some("alice".to_string()),
        )
        .unwrap();
    let info = client.get_inbound_stream(7).unwrap();
    assert_eq!(info.channel, "channel");
    assert_eq!(info.codec, "opus");
    assert_eq!(info.callsign.as_deref(), Some("alice"));

    client.remove_inbound_stream(7).unwrap();
    assert!(client.get_inbound_stream(7).is_none());

    // Removing an identifier that was never recorded is an error,
    // never a silent no-op.
    let r = client.remove_inbound_stream(7);
    match r {
        Err(ZelloError::AudioError(msg)) => assert_eq!(msg, "Invalid stream ID"),
        other => panic!("expected an audio error, got {other:?}"),
    }
}

#[test]
fn test_handle_message_audio_events() {
    let mut client = authenticated_client();

    // A stream start records the inbound stream.
    let start = IncomingMessage::Event(Event::AudioStart {
        stream_id: 11,
        channel: "channel".to_string(),
        from: "bob".to_string(),
        for_user: None,
        codec: "opus".to_string(),
        codec_header: Some("gD4BPA==".to_string()),
        packet_duration: 60,
    });
    let action = handle_message(&mut client, start);
    assert!(matches!(action, MessageAction::Ignore));
    assert!(client.get_inbound_stream(11).is_some());

    // Audio data is forwarded for decoding, known stream or not.
    let data = IncomingMessage::Event(Event::AudioData {
        stream_id: 999,
        packet_id: 1,
        data: vec![1, 2, 3],
    });
    match handle_message(&mut client, data) {
        MessageAction::Audio {
            stream_id,
            packet_id,
            data,
        } => {
            assert_eq!(stream_id, 999);
            assert_eq!(packet_id, 1);
            assert_eq!(data, vec![1, 2, 3]);
        }
        _ => panic!("expected an audio action"),
    }

    // A stream stop removes the entry.
    let stop = IncomingMessage::Event(Event::AudioStop { stream_id: 11 });
    let action = handle_message(&mut client, stop);
    assert!(matches!(action, MessageAction::Ignore));
    assert!(client.get_inbound_stream(11).is_none());
}

#[test]
fn test_handle_message_text_and_response() {
    let mut client = authenticated_client();

    let text = IncomingMessage::Event(Event::TextMessage {
        message_id: 1,
        channel: "chan".to_string(),
        from: "alice".to_string(),
        for_user: None,
        text: "hi".to_string(),
        author: None,
    });
    match handle_message(&mut client, text) {
        MessageAction::Log(line) => assert_eq!(line, "[chan] alice: hi"),
        _ => panic!("expected a log action"),
    }

    let response = IncomingMessage::Response(Response::Generic {
        seq: 9,
        success: false,
        error: Some("denied".to_string()),
    });
    match handle_message(&mut client, response) {
        MessageAction::Log(line) => assert_eq!(line, "Response to #9: Failed - denied"),
        _ => panic!("expected a log action"),
    }
}

#[test]
fn test_handler_lines() {
    assert_eq!(
        handle_text_message("alice", "hi", Some("Alice A"), "chan"),
        "[chan] Alice A: hi"
    );
    assert_eq!(handle_response(3, true, None), "Response to #3: Success");
    assert_eq!(
        handle_channel_status("c", "busy", 250),
        "[c] Status: busy (250 users online)"
    );
}

#[test]
fn test_process_frame_kinds() {
    let step = process_frame(Frame::Ping(vec![])).unwrap();
    assert!(matches!(step, FrameStep::Ignore));
    let step = process_frame(Frame::Pong(vec![])).unwrap();
    assert!(matches!(step, FrameStep::Ignore));

    let r = process_frame(Frame::Close);
    match r {
        Err(ZelloError::ConnectionError(msg)) => assert_eq!(msg, "Connection closed"),
        other => panic!("expected a connection error, got {other:?}"),
    }

    let r = process_frame(Frame::Other);
    assert!(matches!(r, Err(ZelloError::ProtocolError(_))));

    let text = "{\"command\":\"on_stream_stop\",\"stream_id\":5}".to_string();
    match process_frame(Frame::Text(text)).unwrap() {
        FrameStep::Message(IncomingMessage::Event(Event::AudioStop { stream_id })) => {
            assert_eq!(stream_id, 5)
        }
        _ => panic!("expected a stream stop event"),
    }

    let frame: Vec<u8> = vec![1, 0, 0, 0, 5, 0, 0, 1, 2, 9];
    match process_frame(Frame::Binary(frame)).unwrap() {
        FrameStep::Message(IncomingMessage::Event(Event::AudioData { data, .. })) => {
            assert_eq!(data, vec![9])
        }
        _ => panic!("expected an audio data event"),
    }
}
