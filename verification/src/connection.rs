//! Connection lifecycle: state machine, join handshake, state-gated sending.
//!
//! A [`WsClient`] models one chat-room connection.  Its transport is driven
//! by the host runtime; the events the transport delivers (open, close,
//! error) and the user's `send` requests are the only things that change the
//! client.  The frames the client hands to the transport are recorded in
//! `wire`, in the order they are handed over, so that contracts can speak of
//! what the server observes.

use vstd::prelude::*;
use vstd::string::StringExecFns;

verus! {

/// State of the underlying transport, as observed through its lifecycle
/// events.  The only transitions are Connecting to Open, Connecting to
/// Errored, Open to Closed and Open to Errored; Closed and Errored are
/// terminal.
#[derive(Clone, Copy, PartialEq, Eq, Structural, Debug)]
pub enum ConnState {
    Connecting,
    Open,
    Closed,
    Errored,
}

/// Error reported when a frame cannot be handed to the transport.
#[derive(Clone, Copy, PartialEq, Eq, Structural, Debug)]
pub enum SendError {
    /// The connection is not in the Open state.
    NotOpen,
}

/// The connection target for a room: fixed scheme, host, port and path,
/// with the room id appended.
pub open spec fn ws_url_spec(room_id: Seq<char>) -> Seq<char> {
    "ws://127.0.0.1:3000/ws/"@ + room_id
}

/// Builds the URL a client for `room_id` connects to.
pub fn build_url(room_id: &str) -> (url: String)
    ensures
        url@ == ws_url_spec(room_id@),
{
    let mut url = String::from_str("ws://127.0.0.1:3000/ws/");
    url.append(room_id);
    url
}

/// Mathematical view of a client: everything the contracts speak of.
#[verifier::ext_equal]
pub struct ClientView {
    pub url: Seq<char>,
    pub username: Seq<char>,
    pub state: ConnState,
    pub handshake_sent: bool,
    /// The text frames handed to the transport, oldest first.
    pub wire: Seq<Seq<char>>,
}

impl ClientView {
    /// Well-formedness: the handshake frame, when sent, is the first frame
    /// on the wire, and nothing reaches the wire before it; a client that
    /// ever was Open has sent it, a client still Connecting has not.
    pub open spec fn wf(self) -> bool {
        &&& self.handshake_sent ==> self.wire.len() >= 1 && self.wire[0] == self.username
        &&& !self.handshake_sent ==> self.wire.len() == 0
        &&& (self.state == ConnState::Open || self.state == ConnState::Closed)
            ==> self.handshake_sent
        &&& self.state == ConnState::Connecting ==> !self.handshake_sent
    }

    /// The client after the transport's Open event: the single-shot
    /// handshake fires exactly when the client was still Connecting.
    pub open spec fn open_next(self) -> ClientView {
        if self.state == ConnState::Connecting {
            ClientView {
                state: ConnState::Open,
                handshake_sent: true,
                wire: self.wire.push(self.username),
                ..self
            }
        } else {
            self
        }
    }

    /// The frame the Open event puts on the wire, if any.
    pub open spec fn open_frame(self) -> Option<Seq<char>> {
        if self.state == ConnState::Connecting {
            Some(self.username)
        } else {
            None
        }
    }

    /// The client after a user `send`: the frame reaches the wire exactly
    /// when the connection is Open.
    pub open spec fn send_next(self, message: Seq<char>) -> ClientView {
        if self.state == ConnState::Open {
            ClientView { wire: self.wire.push(message), ..self }
        } else {
            self
        }
    }

    /// What a user `send` returns.
    pub open spec fn send_result(self, message: Seq<char>) -> Result<(), SendError> {
        if self.state == ConnState::Open {
            Ok(())
        } else {
            Err(SendError::NotOpen)
        }
    }

    /// The client after the transport's Close event.
    pub open spec fn close_next(self) -> ClientView {
        if self.state == ConnState::Open {
            ClientView { state: ConnState::Closed, ..self }
        } else {
            self
        }
    }

    /// The client after the transport's Error event.
    pub open spec fn error_next(self) -> ClientView {
        if self.state == ConnState::Connecting || self.state == ConnState::Open {
            ClientView { state: ConnState::Errored, ..self }
        } else {
            self
        }
    }
}

/// One chat-room connection: target URL, the name to join under, the
/// observed transport state, whether the handshake frame has been handed
/// over, and the frames handed to the transport so far.
pub struct WsClient {
    pub url: String,
    pub username: String,
    pub state: ConnState,
    pub handshake_sent: bool,
    pub wire: Vec<String>,
}

impl View for WsClient {
    type V = ClientView;

    open spec fn view(&self) -> ClientView {
        ClientView {
            url: self.url@,
            username: self.username@,
            state: self.state,
            handshake_sent: self.handshake_sent,
            wire: self.wire@.map_values(|m: String| m@),
        }
    }
}

impl WsClient {
    /// Creates a client for `room_id` joining as `username`.  The transport
    /// has not opened yet, so the handshake is pending and nothing is on
    /// the wire.
    pub fn new(room_id: String, username: String) -> (c: WsClient)
        ensures
            c@.url == ws_url_spec(room_id@),
            c@.username == username@,
            c@.state == ConnState::Connecting,
            !c@.handshake_sent,
            c@.wire.len() == 0,
            c@.wf(),
    {
        let url = build_url(room_id.as_str());
        WsClient {
            url,
            username,
            state: ConnState::Connecting,
            handshake_sent: false,
            wire: Vec::new(),
        }
    }

    /// Handles the transport's Open event.  On the first Open the client
    /// becomes Open and hands the username over as the first frame — the
    /// join handshake — and returns that frame for the caller to transmit;
    /// a repeated Open event changes nothing and re-sends nothing.
    pub fn on_open(&mut self) -> (frame: Option<String>)
        ensures
            final(self)@ == old(self)@.open_next(),
            match frame {
                Some(f) => old(self)@.open_frame() == Some(f@),
                None => old(self)@.open_frame() is None,
            },
            old(self)@.wf() ==> final(self)@.wf(),
    {
        if self.state == ConnState::Connecting {
            self.state = ConnState::Open;
            self.handshake_sent = true;
            let frame = self.username.clone();
            self.wire.push(self.username.clone());
            proof {
                assert(self@ =~= old(self)@.open_next());
            }
            Some(frame)
        } else {
            None
        }
    }

    /// Sends `message` as a text frame if and only if the connection is
    /// Open; otherwise reports `SendError::NotOpen` and puts nothing on
    /// the wire.
    pub fn send(&mut self, message: String) -> (r: Result<(), SendError>)
        ensures
            final(self)@ == old(self)@.send_next(message@),
            r == old(self)@.send_result(message@),
            old(self)@.wf() ==> final(self)@.wf(),
    {
        if self.state == ConnState::Open {
            self.wire.push(message);
            proof {
                assert(self@ =~= old(self)@.send_next(message@));
            }
            Ok(())
        } else {
            Err(SendError::NotOpen)
        }
    }

    /// Handles the transport's Close event: an Open connection becomes
    /// Closed; any other state is unchanged.
    pub fn on_close(&mut self)
        ensures
            final(self)@ == old(self)@.close_next(),
            old(self)@.wf() ==> final(self)@.wf(),
    {
        if self.state == ConnState::Open {
            self.state = ConnState::Closed;
        }
    }

    /// Handles the transport's Error event: a Connecting or Open
    /// connection becomes Errored; a terminal state is unchanged.
    pub fn on_error(&mut self)
        ensures
            final(self)@ == old(self)@.error_next(),
            old(self)@.wf() ==> final(self)@.wf(),
    {
        if self.state == ConnState::Connecting || self.state == ConnState::Open {
            self.state = ConnState::Errored;
        }
    }
}

} // verus!
