//! Tests for message construction, accessors, configuration validation,
//! and the serialized form of outgoing requests.

use zello_client::client::ZelloConfig;
use zello_client::message::{Error, Message, Response};
use zello_client::wire::encode_message;
use zello_client::{GIT_VERSION, VERSION};

#[test]
fn test_version() {
    assert!(!VERSION.is_empty());
}

#[test]
fn test_git_version() {
    assert!(!GIT_VERSION.is_empty());
}

#[test]
fn client_test_config_validation() {
    let config = ZelloConfig::new(
        "user".to_string(),
        "pass".to_string(),
        "token".to_string(),
        "channel".to_string(),
    );
    assert!(config.validate().is_ok());

    let config = ZelloConfig::new(
        "user".to_string(),
        "pass".to_string(),
        "token".to_string(),
        String::new(),
    );
    assert!(config.validate().is_err());

    let config = ZelloConfig::new(
        String::new(),
        String::new(),
        "token".to_string(),
        "channel".to_string(),
    );
    assert!(config.validate().is_err());
}

#[test]
fn integration_test_test_config_validation() {
    // Valid config with username/password/token
    let config = ZelloConfig::new(
        "user".to_string(),
        "pass".to_string(),
        "token".to_string(),
        "channel".to_string(),
    );
    assert!(config.validate().is_ok());

    // Empty channel should fail
    let config = ZelloConfig::new(
        "user".to_string(),
        "pass".to_string(),
        "some_token".to_string(),
        String::new(),
    );
    assert!(config.validate().is_err());

    // Missing credentials should fail
    let config = ZelloConfig::new(
        String::new(),
        String::new(),
        String::new(),
        "channel".to_string(),
    );
    assert!(config.validate().is_err());
}

#[test]
fn message_test_message_serialization() {
    let msg = Message::send_text(1, "test_channel".to_string(), "Hello".to_string());
    let json = encode_message(&msg);
    assert!(json.contains("send_text_message"));
    assert!(json.contains("Hello"));
}

#[test]
fn test_message_seq() {
    let msg = Message::send_text(42, "channel".to_string(), "test".to_string());
    assert_eq!(msg.seq(), Some(42));
}

#[test]
fn test_message_constructors() {
    let msg = Message::send_text(1, "test".to_string(), "hello".to_string());
    assert_eq!(msg.seq(), Some(1));

    let msg = Message::logon_password(
        2,
        "user".to_string(),
        "pass".to_string(),
        "token".to_string(),
        "channel".to_string(),
    );
    assert_eq!(msg.seq(), Some(2));

    let msg = Message::start_stream(3, "channel".to_string(), "opus".to_string(), 20);
    assert_eq!(msg.seq(), Some(3));

    let msg = Message::stop_stream(4, 100);
    assert_eq!(msg.seq(), Some(4));
}

#[test]
fn test_message_success_check() {
    let msg = Response::Generic {
        seq: 1,
        success: true,
        error: None,
    };
    assert_eq!(msg.is_success(), true);

    let msg = Response::Generic {
        seq: 2,
        success: false,
        error: Some("Failed".to_string()),
    };
    assert_eq!(msg.is_success(), false);
}

#[test]
fn test_message_error_extraction() {
    // Test Error variant
    let msg = Error::Error {
        error: "Test error".to_string(),
    };

    assert_eq!(msg.error(), "Test error");

    // Test Response variant with error
    let msg = Response::Generic {
        seq: 1,
        success: false,
        error: Some("Response error".to_string()),
    };
    assert_eq!(msg.error(), Some("Response error"));

    // Test Response variant without error
    let msg = Response::Generic {
        seq: 1,
        success: true,
        error: None,
    };
    assert_eq!(msg.error(), None);
}

#[test]
fn integration_test_test_message_serialization() {
    let msg = Message::send_text(1, "test_channel".to_string(), "Hello".to_string());
    let json = encode_message(&msg);

    assert!(json.contains("send_text_message"));
    assert!(json.contains("Hello"));
    assert!(json.contains("test_channel"));
    assert!(json.contains("\"seq\":1"));
}

#[test]
fn test_logon_token_constructor() {
    let msg = Message::logon_token(7, "tok".to_string(), "chan".to_string());
    assert_eq!(msg.seq(), Some(7));
    match msg {
        Message::Logon {
            username,
            password,
            auth_token,
            channels,
            ..
        } => {
            assert!(username.is_none());
            assert!(password.is_none());
            assert_eq!(auth_token.as_deref(), Some("tok"));
            assert_eq!(channels.unwrap(), vec!["chan".to_string()]);
        }
        _ => panic!("expected a logon message"),
    }
}

#[test]
fn test_send_text_for_callsign_constructor() {
    let msg = Message::send_text_for_callsign(
        9,
        "chan".to_string(),
        "hi".to_string(),
        "KD0AAA".to_string(),
    );
    match msg {
        Message::SendTextMessage { seq, for_user, .. } => {
            assert_eq!(seq, 9);
            assert_eq!(for_user.as_deref(), Some("KD0AAA"));
        }
        _ => panic!("expected a text message"),
    }
}

#[test]
fn test_with_seq_restamps() {
    let msg = Message::stop_stream(1, 44).with_seq(9);
    assert_eq!(msg.seq(), Some(9));
    match msg {
        Message::StopStream { stream_id, .. } => assert_eq!(stream_id, 44),
        _ => panic!("expected a stop request"),
    }

    let msg = Message::send_text(1, "c".to_string(), "hi".to_string()).with_seq(2);
    assert_eq!(msg.seq(), Some(2));
}
