//! The session: configuration, authentication state machine, and stream
//! bookkeeping.
//!
//! The session owns the sequence counter and all per-stream state. It
//! performs no I/O itself: operations that write to the connection
//! return the message to send, and operations that wait for a response
//! take the received message as an argument. The caller drives the
//! connection and hands frames back in.

use std::collections::HashMap;

use vstd::prelude::*;

use crate::error::ZelloError;
use crate::message::{IncomingMessage, Message, Response};
use crate::protocol::Protocol;

verus! {

broadcast use vstd::std_specs::hash::group_hash_axioms;

/// Configuration for a session.
#[derive(Debug, Clone)]
pub struct ZelloConfig {
    /// Username for authentication.
    pub username: Option<String>,
    /// Password for authentication.
    pub password: Option<String>,
    /// Channel to join.
    pub channel: String,
    /// Authentication token.
    pub auth_token: Option<String>,
}

impl ZelloConfig {
    /// A configuration is valid when the channel is non-empty, a
    /// non-empty token is present, and identity and secret are either
    /// both present and non-empty or both absent.
    pub open spec fn spec_valid(&self) -> bool {
        &&& self.channel@.len() > 0
        &&& self.auth_token matches Some(t) && t@.len() > 0
        &&& match (self.username, self.password) {
            (Some(u), Some(p)) => u@.len() > 0 && p@.len() > 0,
            (None, None) => true,
            _ => false,
        }
    }

    /// Create a new configuration with username, password and token.
    pub fn new(username: String, password: String, auth_token: String, channel: String) -> (r: Self)
        ensures
            r == (ZelloConfig {
                username: Some(username),
                password: Some(password),
                channel,
                auth_token: Some(auth_token),
            }),
    {
        ZelloConfig {
            username: Some(username),
            password: Some(password),
            channel,
            auth_token: Some(auth_token),
        }
    }

    /// Validate the configuration: succeeds exactly on valid bundles, and
    /// rejects anything else with a configuration error.
    pub fn validate(&self) -> (r: Result<(), ZelloError>)
        ensures
            r is Ok <==> self.spec_valid(),
            r matches Err(e) ==> e matches ZelloError::ConfigError(_),
    {
        if self.channel.as_str().is_empty() {
            return Err(ZelloError::ConfigError("Channel cannot be empty".to_owned()));
        }
        match &self.auth_token {
            None => {
                return Err(
                    ZelloError::ConfigError("Must provide auth_token and username/password".to_owned()),
                );
            },
            Some(t) => {
                if t.as_str().is_empty() {
                    return Err(
                        ZelloError::ConfigError(
                            "Username, password, and auth token cannot be empty".to_owned(),
                        ),
                    );
                }
            },
        }
        match (&self.username, &self.password) {
            (Some(u), Some(p)) => {
                if u.as_str().is_empty() || p.as_str().is_empty() {
                    Err(
                        ZelloError::ConfigError(
                            "Username, password, and auth token cannot be empty".to_owned(),
                        ),
                    )
                } else {
                    Ok(())
                }
            },
            (None, None) => Ok(()),
            _ => Err(
                ZelloError::ConfigError("Must provide auth_token and username/password".to_owned()),
            ),
        }
    }
}

/// Attributes of one active audio stream.
#[derive(Debug, Clone)]
pub struct StreamInfo {
    /// The channel the stream belongs to.
    pub channel: String,
    /// The codec identifier.
    pub codec: String,
    /// The remote participant, where one is known.
    pub callsign: Option<String>,
}

/// A raw credential bundle, as the caller collected it.
#[derive(Debug)]
pub struct Credentials {
    pub username: String,
    pub password: String,
    pub token: String,
    pub channel: String,
}

/// The authentication state of a session. Construction dispatches the
/// logon at once, so no idle unauthenticated state is reachable.
#[derive(Debug, Clone, Copy, PartialEq, Eq, Structural)]
pub enum SessionState {
    /// The logon request is out; its response is awaited.
    Authenticating,
    /// The logon succeeded.
    Authenticated,
    /// The session ended: an explicit close, or a failed logon.
    Closed,
}

/// A session: authentication status, the refresh token granted at logon,
/// the active channel, and both stream maps. Exactly one session exists
/// per connection.
#[derive(Debug)]
pub struct ZelloClient {
    /// The sequence counter of the connection.
    pub protocol: Protocol,
    /// The configuration the session was built from.
    pub config: ZelloConfig,
    /// Where the session stands in its life cycle.
    pub state: SessionState,
    /// The sequence number of the logon request.
    pub logon_seq: u32,
    /// The start request whose response is awaited, with its codec:
    /// at most one stream start is in flight at a time.
    pub pending_stream: Option<(u32, String)>,
    /// Outbound streams, keyed by the sequence number that started them.
    pub active_streams: HashMap<u32, StreamInfo>,
    /// Inbound streams, keyed by the server-assigned stream identifier.
    pub active_inbound_streams: HashMap<u32, StreamInfo>,
    /// The refresh token granted at logon.
    pub refresh_token: String,
}

/// The logon request that a configuration dispatches: a password logon
/// where identity and secret are present, a token logon otherwise.
pub open spec fn spec_logon_message(config: ZelloConfig, seq: u32, m: Message) -> bool {
    &&& m matches Message::Logon { seq: s, username, password, auth_token, channels }
    &&& s == seq
    &&& auth_token == config.auth_token
    &&& channels matches Some(v) && v@ =~= seq![config.channel]
    &&& match (config.username, config.password) {
        (Some(u), Some(p)) => username == Some(u) && password == Some(p),
        _ => username is None && password is None,
    }
}

/// The error text a failed response carries, or the empty text.
pub open spec fn spec_response_error_text(resp: Response) -> Seq<char> {
    match resp {
        Response::Logon { error, .. } => match error {
            Some(e) => e@,
            None => Seq::empty(),
        },
        Response::Generic { error, .. } => match error {
            Some(e) => e@,
            None => Seq::empty(),
        },
    }
}

impl ZelloClient {
    /// Create a session from a configuration and dispatch its logon:
    /// validation failures abort construction, and otherwise the new
    /// session is authenticating and the returned request, carrying the
    /// first sequence number, is to be sent.
    pub fn new(config: ZelloConfig) -> (r: Result<(ZelloClient, Message), ZelloError>)
        ensures
            !config.spec_valid() ==> ({
                &&& r matches Err(e)
                &&& e matches ZelloError::ConfigError(_)
            }),
            config.spec_valid() ==> ({
                &&& r matches Ok((c, m))
                &&& c.config == config
                &&& c.state is Authenticating
                &&& c.logon_seq == 1
                &&& c.protocol.sequence == 2
                &&& c.pending_stream is None
                &&& c.active_streams@ == Map::<u32, StreamInfo>::empty()
                &&& c.active_inbound_streams@ == Map::<u32, StreamInfo>::empty()
                &&& c.refresh_token@ == Seq::<char>::empty()
                &&& spec_logon_message(config, 1, m)
            }),
    {
        match config.validate() {
            Ok(_) => {},
            Err(e) => {
                return Err(e);
            },
        }
        let mut protocol = Protocol::new();
        let seq = protocol.next_seq();
        let message = match (&config.username, &config.password) {
            (Some(u), Some(p)) => {
                let token = match &config.auth_token {
                    Some(t) => t.clone(),
                    None => String::new(),
                };
                Message::logon_password(
                    seq,
                    u.clone(),
                    p.clone(),
                    token,
                    config.channel.clone(),
                )
            },
            _ => {
                let token = match &config.auth_token {
                    Some(t) => t.clone(),
                    None => String::new(),
                };
                Message::logon_token(seq, token, config.channel.clone())
            },
        };
        let client = ZelloClient {
            protocol,
            config,
            state: SessionState::Authenticating,
            logon_seq: seq,
            pending_stream: None,
            active_streams: HashMap::new(),
            active_inbound_streams: HashMap::new(),
            refresh_token: String::new(),
        };
        Ok((client, message))
    }

    /// Finish authentication with what the bounded wait produced. A
    /// response correlated to the logon with a true success indicator
    /// authenticates the session and captures the refresh token; a
    /// correlated response with a false indicator fails with the server's
    /// message as an authentication error; anything else is a protocol
    /// error. Any failure closes the session.
    pub fn complete_logon(&mut self, response: Option<IncomingMessage>) -> (r: Result<
        (),
        ZelloError,
    >)
        ensures
            final(self).config == old(self).config,
            final(self).protocol == old(self).protocol,
            final(self).logon_seq == old(self).logon_seq,
            final(self).pending_stream == old(self).pending_stream,
            final(self).active_streams@ == old(self).active_streams@,
            final(self).active_inbound_streams@ == old(self).active_inbound_streams@,
            ({
                if !(old(self).state is Authenticating) {
                    &&& r matches Err(e) &&& e matches ZelloError::ProtocolError(_)
                    &&& final(self).state == old(self).state
                    &&& final(self).refresh_token == old(self).refresh_token
                } else {
                    match response {
                        Some(IncomingMessage::Response(resp)) => {
                            if resp.spec_seq() != old(self).logon_seq {
                                &&& r matches Err(e) &&& e matches ZelloError::ProtocolError(_)
                                &&& final(self).state is Closed
                                &&& final(self).refresh_token == old(self).refresh_token
                            } else if !resp.spec_success() {
                                &&& r matches Err(ZelloError::AuthenticationError(msg)) && msg@
                                    == spec_response_error_text(resp)
                                &&& final(self).state is Closed
                                &&& final(self).refresh_token == old(self).refresh_token
                            } else {
                                match resp {
                                    Response::Logon { refresh_token, .. } => {
                                        &&& r is Ok
                                        &&& final(self).state is Authenticated
                                        &&& final(self).refresh_token == refresh_token
                                    },
                                    Response::Generic { .. } => {
                                        &&& r matches Err(e) &&& e matches ZelloError::ProtocolError(
                                            _,
                                        )
                                        &&& final(self).state is Closed
                                        &&& final(self).refresh_token == old(self).refresh_token
                                    },
                                }
                            }
                        },
                        _ => {
                            &&& r matches Err(e) &&& e matches ZelloError::ProtocolError(_)
                            &&& final(self).state is Closed
                            &&& final(self).refresh_token == old(self).refresh_token
                        },
                    }
                }
            }),
    {
        if self.state != SessionState::Authenticating {
            return Err(ZelloError::ProtocolError("Session is not authenticating".to_owned()));
        }
        match response {
            Some(IncomingMessage::Response(resp)) => {
                let rseq = match &resp {
                    Response::Logon { seq, .. } => *seq,
                    Response::Generic { seq, .. } => *seq,
                };
                if rseq != self.logon_seq {
                    self.state = SessionState::Closed;
                    return Err(ZelloError::ProtocolError("Unexpected response to logon".to_owned()));
                }
                match resp {
                    Response::Logon { success, refresh_token, error, .. } => {
                        if success {
                            self.state = SessionState::Authenticated;
                            self.refresh_token = refresh_token;
                            Ok(())
                        } else {
                            self.state = SessionState::Closed;
                            Err(
                                ZelloError::AuthenticationError(
                                    match error {
                                        Some(e) => e,
                                        None => String::new(),
                                    },
                                ),
                            )
                        }
                    },
                    Response::Generic { success, error, .. } => {
                        if success {
                            self.state = SessionState::Closed;
                            Err(ZelloError::ProtocolError("Unexpected response to logon".to_owned()))
                        } else {
                            self.state = SessionState::Closed;
                            Err(
                                ZelloError::AuthenticationError(
                                    match error {
                                        Some(e) => e,
                                        None => String::new(),
                                    },
                                ),
                            )
                        }
                    },
                }
            },
            _ => {
                self.state = SessionState::Closed;
                Err(ZelloError::ProtocolError("Unexpected response to logon".to_owned()))
            },
        }
    }

    /// Everything but the sequence counter is unchanged, and the counter
    /// advanced by one.
    pub open spec fn spec_only_seq_advanced(pre: ZelloClient, post: ZelloClient) -> bool {
        &&& post.config == pre.config
        &&& post.state == pre.state
        &&& post.logon_seq == pre.logon_seq
        &&& post.pending_stream == pre.pending_stream
        &&& post.active_streams@ == pre.active_streams@
        &&& post.active_inbound_streams@ == pre.active_inbound_streams@
        &&& post.refresh_token == pre.refresh_token
        &&& post.protocol.sequence == Protocol::spec_next_sequence(pre.protocol.sequence)
    }

    /// Build the request that sends a text message to the channel. The
    /// session must be authenticated; nothing is touched otherwise.
    pub fn send_text_message(&mut self, text: &str) -> (r: Result<Message, ZelloError>)
        ensures
            !(old(self).state is Authenticated) ==> r == Err::<Message, ZelloError>(
                ZelloError::NotConnected,
            ) && *final(self) == *old(self),
            old(self).state is Authenticated ==> ({
                &&& r matches Ok(m)
                &&& m matches Message::SendTextMessage { seq, channel, for_user, text: t }
                &&& seq == old(self).protocol.sequence
                &&& channel == old(self).config.channel
                &&& for_user is None
                &&& t@ == text@
                &&& Self::spec_only_seq_advanced(*old(self), *final(self))
            }),
    {
        if self.state != SessionState::Authenticated {
            return Err(ZelloError::NotConnected);
        }
        let seq = self.protocol.next_seq();
        Ok(Message::send_text(seq, self.config.channel.clone(), text.to_owned()))
    }

    /// Build the request that sends a text message addressed to one
    /// callsign. The session must be authenticated.
    pub fn send_text_message_to_callsign(&mut self, text: &str, callsign: &str) -> (r: Result<
        Message,
        ZelloError,
    >)
        ensures
            !(old(self).state is Authenticated) ==> r == Err::<Message, ZelloError>(
                ZelloError::NotConnected,
            ) && *final(self) == *old(self),
            old(self).state is Authenticated ==> ({
                &&& r matches Ok(m)
                &&& m matches Message::SendTextMessage { seq, channel, for_user, text: t }
                &&& seq == old(self).protocol.sequence
                &&& channel == old(self).config.channel
                &&& for_user matches Some(u) && u@ == callsign@
                &&& t@ == text@
                &&& Self::spec_only_seq_advanced(*old(self), *final(self))
            }),
    {
        if self.state != SessionState::Authenticated {
            return Err(ZelloError::NotConnected);
        }
        let seq = self.protocol.next_seq();
        Ok(
            Message::send_text_for_callsign(
                seq,
                self.config.channel.clone(),
                text.to_owned(),
                callsign.to_owned(),
            ),
        )
    }

    /// Begin starting an outbound audio stream: build the request and
    /// record it as pending. The returned sequence number will become
    /// the stream identifier if the server acknowledges the start. The
    /// session must be authenticated.
    pub fn start_audio_stream(&mut self, codec: &str, packet_duration: u32) -> (r: Result<
        (u32, Message),
        ZelloError,
    >)
        ensures
            !(old(self).state is Authenticated) ==> r == Err::<(u32, Message), ZelloError>(
                ZelloError::NotConnected,
            ) && *final(self) == *old(self),
            old(self).state is Authenticated ==> ({
                &&& r matches Ok((seq, m))
                &&& seq == old(self).protocol.sequence
                &&& m matches Message::StartStream {
                    seq: ms,
                    channel,
                    for_user,
                    codec: mc,
                    codec_header,
                    packet_duration: pd,
                }
                &&& ms == seq
                &&& channel == old(self).config.channel
                &&& for_user is None
                &&& mc@ == codec@
                &&& codec_header is None
                &&& pd == packet_duration
                &&& final(self).pending_stream matches Some((ps, pc))
                &&& ps == seq
                &&& pc@ == codec@
                &&& final(self).config == old(self).config
                &&& final(self).state == old(self).state
                &&& final(self).logon_seq == old(self).logon_seq
                &&& final(self).active_streams@ == old(self).active_streams@
                &&& final(self).active_inbound_streams@ == old(self).active_inbound_streams@
                &&& final(self).refresh_token == old(self).refresh_token
                &&& final(self).protocol.sequence == Protocol::spec_next_sequence(
                    old(self).protocol.sequence,
                )
            }),
    {
        if self.state != SessionState::Authenticated {
            return Err(ZelloError::NotConnected);
        }
        let seq = self.protocol.next_seq();
        let message = Message::start_stream(
            seq,
            self.config.channel.clone(),
            codec.to_owned(),
            packet_duration,
        );
        self.pending_stream = Some((seq, codec.to_owned()));
        Ok((seq, message))
    }

    /// Finish starting an outbound stream with what the bounded wait
    /// produced. A correlated success records the stream under the
    /// request's sequence number and returns that identifier; a
    /// correlated failure is an audio error and the stream is never
    /// recorded; anything else is a protocol error. The pending start is
    /// consumed either way.
    pub fn complete_start_stream(&mut self, response: Option<IncomingMessage>) -> (r: Result<
        u32,
        ZelloError,
    >)
        ensures
            final(self).config == old(self).config,
            final(self).state == old(self).state,
            final(self).logon_seq == old(self).logon_seq,
            final(self).protocol == old(self).protocol,
            final(self).active_inbound_streams@ == old(self).active_inbound_streams@,
            final(self).refresh_token == old(self).refresh_token,
            ({
                if old(self).pending_stream is None {
                    &&& r matches Err(e)
                    &&& e matches ZelloError::ProtocolError(_)
                    &&& *final(self) == *old(self)
                } else {
                    let (seq, cod) = old(self).pending_stream->Some_0;
                    &&& final(self).pending_stream is None
                    &&& match response {
                        Some(IncomingMessage::Response(Response::Generic {
                            seq: rs,
                            success,
                            error,
                        })) => {
                            if rs != seq {
                                &&& r matches Err(e)
                                &&& e matches ZelloError::ProtocolError(_)
                                &&& final(self).active_streams@ == old(self).active_streams@
                            } else if success {
                                &&& r == Ok::<u32, ZelloError>(seq)
                                &&& final(self).active_streams@ == old(self).active_streams@.insert(
                                    seq,
                                    StreamInfo {
                                        channel: old(self).config.channel,
                                        codec: cod,
                                        callsign: None,
                                    },
                                )
                            } else {
                                &&& r matches Err(ZelloError::AudioError(msg))
                                &&& match error {
                                    Some(e) => msg@ == e@,
                                    None => msg@ == "Failed to start stream"@,
                                }
                                &&& final(self).active_streams@ == old(self).active_streams@
                            }
                        },
                        _ => {
                            &&& r matches Err(e)
                            &&& e matches ZelloError::ProtocolError(_)
                            &&& final(self).active_streams@ == old(self).active_streams@
                        },
                    }
                }
            }),
    {
        let pending = match &self.pending_stream {
            Some(p) => (p.0, p.1.clone()),
            None => {
                return Err(ZelloError::ProtocolError("No stream start is pending".to_owned()));
            },
        };
        self.pending_stream = None;
        match response {
            Some(IncomingMessage::Response(Response::Generic { seq: rs, success, error })) => {
                if rs != pending.0 {
                    Err(ZelloError::ProtocolError("Unexpected response to start_stream".to_owned()))
                } else if success {
                    self.active_streams.insert(
                        pending.0,
                        StreamInfo {
                            channel: self.config.channel.clone(),
                            codec: pending.1,
                            callsign: None,
                        },
                    );
                    Ok(pending.0)
                } else {
                    Err(
                        ZelloError::AudioError(
                            match error {
                                Some(e) => e,
                                None => "Failed to start stream".to_owned(),
                            },
                        ),
                    )
                }
            },
            _ => Err(ZelloError::ProtocolError("Unexpected response to start_stream".to_owned())),
        }
    }

    /// Accept an audio payload for an already-started outbound stream
    /// and hand it back for the caller to write as one binary frame.
    /// Outbound audio frames carry the raw payload only, with no header.
    /// An unknown stream identifier is an audio error, and nothing is
    /// written for it.
    pub fn send_audio_packet(&mut self, stream_id: u32, data: Vec<u8>) -> (r: Result<
        Vec<u8>,
        ZelloError,
    >)
        ensures
            *final(self) == *old(self),
            !(old(self).state is Authenticated) ==> r == Err::<Vec<u8>, ZelloError>(
                ZelloError::NotConnected,
            ),
            old(self).state is Authenticated && !old(self).active_streams@.contains_key(stream_id)
                ==> ({
                &&& r matches Err(ZelloError::AudioError(msg))
                &&& msg@ == "Invalid stream ID"@
            }),
            old(self).state is Authenticated && old(self).active_streams@.contains_key(stream_id)
                ==> ({
                &&& r matches Ok(d)
                &&& d == data
            }),
    {
        if self.state != SessionState::Authenticated {
            return Err(ZelloError::NotConnected);
        }
        if !self.active_streams.contains_key(&stream_id) {
            return Err(ZelloError::AudioError("Invalid stream ID".to_owned()));
        }
        Ok(data)
    }

    /// Build the request that stops an outbound stream and remove the
    /// stream from the outbound map at once: no acknowledgement is
    /// awaited for a stop. An unknown stream identifier is an audio
    /// error, and nothing is written for it.
    pub fn stop_audio_stream(&mut self, stream_id: u32) -> (r: Result<Message, ZelloError>)
        ensures
            !(old(self).state is Authenticated) ==> r == Err::<Message, ZelloError>(
                ZelloError::NotConnected,
            ) && *final(self) == *old(self),
            old(self).state is Authenticated && !old(self).active_streams@.contains_key(stream_id)
                ==> ({
                &&& r matches Err(ZelloError::AudioError(msg))
                &&& msg@ == "Invalid stream ID"@
                &&& *final(self) == *old(self)
            }),
            old(self).state is Authenticated && old(self).active_streams@.contains_key(stream_id)
                ==> ({
                &&& r == Ok::<Message, ZelloError>(
                    Message::StopStream { seq: old(self).protocol.sequence, stream_id },
                )
                &&& final(self).active_streams@ == old(self).active_streams@.remove(stream_id)
                &&& final(self).config == old(self).config
                &&& final(self).state == old(self).state
                &&& final(self).logon_seq == old(self).logon_seq
                &&& final(self).pending_stream == old(self).pending_stream
                &&& final(self).active_inbound_streams@ == old(self).active_inbound_streams@
                &&& final(self).refresh_token == old(self).refresh_token
                &&& final(self).protocol.sequence == Protocol::spec_next_sequence(
                    old(self).protocol.sequence,
                )
            }),
    {
        if self.state != SessionState::Authenticated {
            return Err(ZelloError::NotConnected);
        }
        if !self.active_streams.contains_key(&stream_id) {
            return Err(ZelloError::AudioError("Invalid stream ID".to_owned()));
        }
        let seq = self.protocol.next_seq();
        let message = Message::stop_stream(seq, stream_id);
        self.active_streams.remove(&stream_id);
        Ok(message)
    }

    /// Record a new inbound stream under the server-assigned identifier.
    pub fn add_inbound_stream(
        &mut self,
        stream_id: u32,
        channel: String,
        codec: String,
        callsign: Option<String>,
    ) -> (r: Result<(), ZelloError>)
        ensures
            r is Ok,
            final(self).active_inbound_streams@ == old(self).active_inbound_streams@.insert(
                stream_id,
                (StreamInfo { channel, codec, callsign }),
            ),
            final(self).config == old(self).config,
            final(self).state == old(self).state,
            final(self).logon_seq == old(self).logon_seq,
            final(self).pending_stream == old(self).pending_stream,
            final(self).active_streams@ == old(self).active_streams@,
            final(self).refresh_token == old(self).refresh_token,
            final(self).protocol == old(self).protocol,
    {
        self.active_inbound_streams.insert(stream_id, StreamInfo { channel, codec, callsign });
        Ok(())
    }

    /// Look up an inbound stream.
    pub fn get_inbound_stream(&self, stream_id: u32) -> (r: Option<&StreamInfo>)
        ensures
            match r {
                Some(si) => self.active_inbound_streams@.contains_key(stream_id) && *si
                    == self.active_inbound_streams@[stream_id],
                None => !self.active_inbound_streams@.contains_key(stream_id),
            },
    {
        self.active_inbound_streams.get(&stream_id)
    }

    /// Remove an inbound stream. An identifier that is not present is
    /// an audio error, never a silent no-op.
    pub fn remove_inbound_stream(&mut self, stream_id: u32) -> (r: Result<(), ZelloError>)
        ensures
            old(self).active_inbound_streams@.contains_key(stream_id) ==> ({
                &&& r is Ok
                &&& final(self).active_inbound_streams@
                    == old(self).active_inbound_streams@.remove(stream_id)
            }),
            !old(self).active_inbound_streams@.contains_key(stream_id) ==> ({
                &&& r matches Err(ZelloError::AudioError(msg))
                &&& msg@ == "Invalid stream ID"@
                &&& final(self).active_inbound_streams@ == old(self).active_inbound_streams@
            }),
            final(self).config == old(self).config,
            final(self).state == old(self).state,
            final(self).logon_seq == old(self).logon_seq,
            final(self).pending_stream == old(self).pending_stream,
            final(self).active_streams@ == old(self).active_streams@,
            final(self).refresh_token == old(self).refresh_token,
            final(self).protocol == old(self).protocol,
    {
        if !self.active_inbound_streams.contains_key(&stream_id) {
            return Err(ZelloError::AudioError("Invalid stream ID".to_owned()));
        }
        self.active_inbound_streams.remove(&stream_id);
        Ok(())
    }

    /// Check whether the session is authenticated.
    pub fn is_authenticated(&self) -> (r: bool)
        ensures
            r == (self.state is Authenticated),
    {
        self.state == SessionState::Authenticated
    }

    /// Get the active channel.
    pub fn channel(&self) -> (r: &str)
        ensures
            r@ == self.config.channel@,
    {
        self.config.channel.as_str()
    }

    /// Close the session: no further operation touches the transport.
    /// The caller performs the close handshake on the connection.
    pub fn close(&mut self)
        ensures
            final(self).state is Closed,
            final(self).config == old(self).config,
            final(self).protocol == old(self).protocol,
            final(self).logon_seq == old(self).logon_seq,
            final(self).pending_stream == old(self).pending_stream,
            final(self).active_streams@ == old(self).active_streams@,
            final(self).active_inbound_streams@ == old(self).active_inbound_streams@,
            final(self).refresh_token == old(self).refresh_token,
    {
        self.state = SessionState::Closed;
    }
}

} // verus!
