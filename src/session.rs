use vstd::prelude::*;
use vstd::string::StringExecFns;

use crate::protocol::{ClientMessage, Connect, Disconnect, Message};

verus! {

/// Length of a generated connection identifier.
pub const ID_LEN: usize = 21;

/// Whether `c` belongs to the URL-safe alphabet that connection identifiers are drawn from.
pub open spec fn is_id_char(c: char) -> bool {
    ('a' <= c && c <= 'z') || ('A' <= c && c <= 'Z') || ('0' <= c && c <= '9') || c == '_' || c
        == '-'
}

/// Relies on `nanoid::format` with nanoid's default random source and its `SAFE`
/// alphabet: the identifier has exactly `size` characters, each from that alphabet.
/// A `size` of zero never returns, and `8 * size` must not overflow. Seeding the
/// random source from the operating system panics if the system cannot supply entropy.
#[verifier::external_body]
fn random_id(size: usize) -> (r: String)
    requires
        0 < size <= usize::MAX / 8,
    ensures
        r@.len() == size,
        forall|i: int| 0 <= i < r@.len() ==> is_id_char(#[trigger] r@[i]),
{
    nanoid::format(nanoid::rngs::default, &nanoid::alphabet::SAFE, size)
}

/// Where a session is in its life.
#[derive(Clone, Copy, Debug, PartialEq, Eq, Structural)]
pub enum SessionState {
    Connecting,
    Active,
    Closing,
    Closed,
}

/// Why a stream is being closed: the status code and an optional description.
#[derive(Debug, PartialEq, Eq)]
pub struct CloseReason {
    pub code: u16,
    pub description: Option<String>,
}

/// A frame read from the connection's stream.
#[derive(Debug, PartialEq, Eq)]
pub enum Frame {
    Text(String),
    Binary(Vec<u8>),
    /// A fragment of a message split over several frames.
    Continuation,
    Ping(Vec<u8>),
    Pong(Vec<u8>),
    Close(Option<CloseReason>),
    Nop,
}

/// The stream could not be decoded.
#[derive(Debug, PartialEq, Eq)]
pub struct ProtocolError;

/// What the session asks its transport to do in answer to one inbound frame.
#[derive(Debug, PartialEq, Eq)]
pub enum Action {
    /// Nothing to do.
    Ignore,
    /// Write a pong frame with this payload.
    Pong(Vec<u8>),
    /// Hand this request to the hub.
    Forward(ClientMessage),
    /// Write this binary frame back to the same connection.
    Binary(Vec<u8>),
    /// Write a close frame with this reason, then tear the stream down.
    Close(Option<CloseReason>),
    /// Tear the stream down without writing anything.
    Stop,
}

/// One live connection: its identity, the channel it joined and its protocol state.
pub struct Session {
    pub id: String,
    pub name: Option<String>,
    pub channel: String,
    pub state: SessionState,
}

impl Session {
    /// A session for a new connection to `channel`, under a fresh random identifier.
    pub fn new(channel: String) -> (r: Session)
        ensures
            r.id@.len() == ID_LEN,
            forall|i: int| 0 <= i < r.id@.len() ==> is_id_char(#[trigger] r.id@[i]),
            r.name is None,
            r.channel@ == channel@,
            r.state == SessionState::Connecting,
    {
        Session { id: random_id(ID_LEN), name: None, channel, state: SessionState::Connecting }
    }

    /// The stream is up: the session becomes active. Returns the registration to send
    /// to the hub, with `addr` as the way back to this connection, and the greeting to
    /// write straight to the stream.
    pub fn started<H>(&mut self, addr: H) -> (r: (Connect<H>, Message))
        ensures
            final(self).state == SessionState::Active,
            final(self).id == old(self).id,
            final(self).name == old(self).name,
            final(self).channel == old(self).channel,
            r.0.id@ == old(self).id@,
            r.0.channel@ == old(self).channel@,
            r.0.addr == addr,
            r.1.0@ == "Session: Joined"@,
    {
        self.state = SessionState::Active;
        let join = Connect { id: self.id.clone(), channel: self.channel.clone(), addr };
        (join, Message(String::from_str("Session: Joined")))
    }

    /// The stream is going away, for whatever reason: the session is closed and
    /// returns the request that takes it out of the hub.
    pub fn stopping(&mut self) -> (r: Disconnect)
        ensures
            final(self).state == SessionState::Closed,
            final(self).id == old(self).id,
            final(self).name == old(self).name,
            final(self).channel == old(self).channel,
            r.id@ == old(self).id@,
            r.channel@ == old(self).channel@,
    {
        self.state = SessionState::Closed;
        Disconnect { id: self.id.clone(), channel: self.channel.clone() }
    }

    /// Text the hub sent to this connection: written out verbatim while the
    /// session is active, dropped otherwise.
    pub fn handle_message(&self, msg: Message) -> (r: Option<String>)
        ensures
            self.state == SessionState::Active ==> r is Some && r->0@ == msg.0@,
            self.state != SessionState::Active ==> r is None,
    {
        if self.state == SessionState::Active {
            Some(msg.0)
        } else {
            None
        }
    }

    /// Answers one inbound frame, or a decoding failure, of an active session.
    /// A session that is not active ignores its input.
    pub fn handle(&mut self, msg: Result<Frame, ProtocolError>) -> (r: Action)
        ensures
            final(self).id == old(self).id,
            final(self).name == old(self).name,
            final(self).channel == old(self).channel,
            old(self).state != SessionState::Active ==> r is Ignore && final(self).state
                == old(self).state,
            old(self).state == SessionState::Active ==> match msg {
                Err(_) => r is Stop && final(self).state == SessionState::Closing,
                Ok(Frame::Ping(p)) => r == Action::Pong(p) && final(self).state
                    == SessionState::Active,
                Ok(Frame::Pong(_)) => r is Ignore && final(self).state == SessionState::Active,
                Ok(Frame::Text(t)) => r is Forward && r->Forward_0.id@ == old(self).id@
                    && r->Forward_0.msg@ == t@ && r->Forward_0.channel@ == old(self).channel@
                    && final(self).state == SessionState::Active,
                Ok(Frame::Binary(b)) => r == Action::Binary(b) && final(self).state
                    == SessionState::Active,
                Ok(Frame::Close(reason)) => r == Action::Close(reason) && final(self).state
                    == SessionState::Closing,
                Ok(Frame::Continuation) => r is Stop && final(self).state == SessionState::Closing,
                Ok(Frame::Nop) => r is Ignore && final(self).state == SessionState::Active,
            },
    {
        if self.state != SessionState::Active {
            return Action::Ignore;
        }
        let frame = match msg {
            Err(_) => {
                self.state = SessionState::Closing;
                return Action::Stop;
            },
            Ok(frame) => frame,
        };
        match frame {
            Frame::Ping(payload) => Action::Pong(payload),
            Frame::Pong(_) => Action::Ignore,
            Frame::Text(text) => Action::Forward(
                ClientMessage { id: self.id.clone(), msg: text, channel: self.channel.clone() },
            ),
            Frame::Binary(bin) => Action::Binary(bin),
            Frame::Close(reason) => {
                self.state = SessionState::Closing;
                Action::Close(reason)
            },
            Frame::Continuation => {
                self.state = SessionState::Closing;
                Action::Stop
            },
            Frame::Nop => Action::Ignore,
        }
    }
}

} // verus!
